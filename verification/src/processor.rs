use vstd::prelude::*;
use crate::account::{views, Account, AccountView, Address};
use crate::error::VaultError;
use crate::instruction::{InstructionView, VaultInstruction};
use crate::instructions::deposit::{deposit, deposit_spec};
use crate::instructions::initialize_vault::{initialize_spec, initialize_vault};
use crate::instructions::withdraw::{withdraw, withdraw_spec};

verus! {

/// What an instruction does to the accounts under `program_id`: what the
/// operation it names does with its arguments.
pub open spec fn process_spec(
    program_id: Seq<u8>,
    accounts: Seq<AccountView>,
    instruction: InstructionView,
) -> Result<Seq<AccountView>, VaultError> {
    match instruction {
        InstructionView::InitializeVault { vault_id } => match initialize_spec(
            program_id,
            accounts,
            vault_id,
        ) {
            Ok((after, _)) => Ok(after),
            Err(e) => Err(e),
        },
        InstructionView::Deposit {
            vault_id,
            user_pubkey,
            amount,
            fund_status,
            bot_status,
        } => deposit_spec(
            program_id,
            accounts,
            vault_id,
            user_pubkey,
            amount,
            fund_status,
            bot_status,
        ),
        InstructionView::Withdraw {
            vault_id,
            user_pubkey,
            amount,
            fund_status,
            bot_status,
        } => withdraw_spec(
            program_id,
            accounts,
            vault_id,
            user_pubkey,
            amount,
            fund_status,
            bot_status,
        ),
    }
}

/// Runs the operation that an instruction names on the accounts supplied.
/// On an error no account changes.
pub fn process_instruction(
    program_id: &Address,
    accounts: &mut Vec<Account>,
    instruction: VaultInstruction,
) -> (r: Result<(), VaultError>)
    ensures
        match process_spec(program_id@, views(old(accounts)@), instruction@) {
            Ok(after) => r is Ok && views(final(accounts)@) == after,
            Err(e) => r == Err::<(), VaultError>(e) && final(accounts)@ == old(accounts)@,
        },
{
    match instruction {
        VaultInstruction::InitializeVault { vault_id } => {
            match initialize_vault(program_id, accounts, vault_id) {
                Ok(_) => Ok(()),
                Err(e) => Err(e),
            }
        },
        VaultInstruction::Deposit {
            vault_id,
            user_pubkey,
            amount,
            fund_status,
            bot_status,
        } => deposit(
            program_id,
            accounts,
            vault_id,
            user_pubkey,
            amount,
            fund_status,
            bot_status,
        ),
        VaultInstruction::Withdraw {
            vault_id,
            user_pubkey,
            amount,
            fund_status,
            bot_status,
        } => withdraw(
            program_id,
            accounts,
            vault_id,
            user_pubkey,
            amount,
            fund_status,
            bot_status,
        ),
    }
}

} // verus!
