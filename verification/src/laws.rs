//! What holds of the operations whatever their inputs: stated over the
//! functions that the operations' contracts are written in.

use vstd::prelude::*;
use crate::account::AccountView;
use crate::codec::{
    all_zero, decode_inverts_encode, lemma_record_bytes_len, packed_size, record_len,
    unwritten_is_not_live, MAX_RECORD_LEN,
};
use crate::error::VaultError;
use crate::fee::{fee_is_exact, unit_value, withdrawal_fee, withdrawal_net};
use crate::instruction::InstructionView;
use crate::instructions::deposit::{deposit_effect, deposit_outcome};
use crate::instructions::initialize_vault::initialize_outcome;
use crate::instructions::withdraw::{withdraw_effect, withdraw_outcome};
use crate::ledger::{deposited, ledger_balance, live_record, storable, stored, withdrawn};
use crate::pda::derivation_check;
use crate::processor::process_spec;
use crate::state::RecordView;

verus! {

/// A record that was written is the live record of its storage.
pub proof fn stored_record_is_live(data: Seq<u8>, r: RecordView)
    requires
        storable(r, data.len()),
        r.is_initialized,
    ensures
        live_record(stored(data, r)) == Ok::<Option<RecordView>, VaultError>(Some(r)),
        ledger_balance(stored(data, r)) == r.amount,
        stored(data, r).len() == data.len(),
{
    decode_inverts_encode(r, data.subrange(record_len(r) as int, data.len() as int));
    lemma_record_bytes_len(r);
}

/// What a run of instructions does to the accounts: each works on what the
/// one before it left, and the first that is rejected ends the run.
pub open spec fn process_all(
    program_id: Seq<u8>,
    accounts: Seq<AccountView>,
    instructions: Seq<InstructionView>,
) -> Result<Seq<AccountView>, VaultError>
    decreases instructions.len(),
{
    if instructions.len() == 0 {
        Ok(accounts)
    } else {
        match process_spec(program_id, accounts, instructions[0]) {
            Ok(after) => process_all(program_id, after, instructions.drop_first()),
            Err(e) => Err(e),
        }
    }
}

/// What an instruction adds to the balance of the record it works on: the
/// amount of a deposit, less the amount of a withdrawal.
pub open spec fn credit(instruction: InstructionView) -> int {
    match instruction {
        InstructionView::InitializeVault { .. } => 0,
        InstructionView::Deposit { amount, .. } => amount as int,
        InstructionView::Withdraw { amount, .. } => -(amount as int),
    }
}

/// The deposits of a run less its withdrawals.
pub open spec fn total_credit(instructions: Seq<InstructionView>) -> int
    decreases instructions.len(),
{
    if instructions.len() == 0 {
        0
    } else {
        credit(instructions[0]) + total_credit(instructions.drop_first())
    }
}

/// An instruction that is accepted changes the balance of the user's record
/// by exactly its amount, and keeps the number of accounts.
pub proof fn accepted_instruction_credits(
    program_id: Seq<u8>,
    accounts: Seq<AccountView>,
    instruction: InstructionView,
)
    requires
        process_spec(program_id, accounts, instruction) is Ok,
    ensures
        ({
            let after = process_spec(program_id, accounts, instruction).unwrap();
            &&& after.len() == accounts.len()
            &&& ledger_balance(after[1].data) == ledger_balance(accounts[1].data) + credit(
                instruction,
            )
        }),
{
    match instruction {
        InstructionView::InitializeVault { vault_id } => {},
        InstructionView::Deposit { vault_id, user_pubkey, amount, fund_status, bot_status } => {
            let prior = live_record(accounts[1].data).unwrap();
            let updated = deposited(prior, vault_id, user_pubkey, amount, fund_status, bot_status);
            stored_record_is_live(accounts[1].data, updated);
        },
        InstructionView::Withdraw { vault_id, user_pubkey, amount, fund_status, bot_status } => {
            let prior = live_record(accounts[1].data).unwrap().unwrap();
            let updated = withdrawn(prior, vault_id, amount, fund_status, bot_status);
            stored_record_is_live(accounts[1].data, updated);
        },
    }
}

/// Balance conservation: after a run of instructions of which none was
/// rejected, the balance of the user's record is what it was before, plus
/// the deposits, minus the withdrawals. It is never negative.
pub proof fn balance_is_conserved(
    program_id: Seq<u8>,
    accounts: Seq<AccountView>,
    instructions: Seq<InstructionView>,
)
    requires
        process_all(program_id, accounts, instructions) is Ok,
    ensures
        ({
            let after = process_all(program_id, accounts, instructions).unwrap();
            &&& after.len() == accounts.len()
            &&& ledger_balance(after[1].data) == ledger_balance(accounts[1].data) + total_credit(
                instructions,
            )
            &&& ledger_balance(after[1].data) >= 0
        }),
    decreases instructions.len(),
{
    if instructions.len() > 0 {
        accepted_instruction_credits(program_id, accounts, instructions[0]);
        let next = process_spec(program_id, accounts, instructions[0]).unwrap();
        balance_is_conserved(program_id, next, instructions.drop_first());
    }
}

/// A withdrawal of more than the record's balance is rejected, whatever else
/// holds; where everything up to the balance check is in order, the error is
/// `InsufficientFunds`.
pub proof fn overdraft_is_rejected(
    user: Option<(Seq<u8>, u8)>,
    treasury: Option<(Seq<u8>, u8)>,
    vault: Option<(Seq<u8>, u8)>,
    accounts: Seq<AccountView>,
    vault_id: Seq<char>,
    user_pubkey: Seq<char>,
    amount: u32,
    fund_status: Seq<char>,
    bot_status: Seq<char>,
)
    requires
        amount > ledger_balance(accounts[1].data),
    ensures
        ({
            let outcome = withdraw_outcome(
                user,
                treasury,
                vault,
                accounts,
                vault_id,
                user_pubkey,
                amount,
                fund_status,
                bot_status,
            );
            &&& outcome is Err
            &&& (accounts.len() >= 4 && accounts[0].is_signer && derivation_check(
                user,
                accounts[1].key,
            ) is Ok && packed_size(vault_id, user_pubkey, fund_status, bot_status) <= MAX_RECORD_LEN
                && live_record(accounts[1].data) is Ok && live_record(
                accounts[1].data,
            ).unwrap() is Some) ==> outcome == Err::<Seq<AccountView>, VaultError>(
                VaultError::InsufficientFunds,
            )
        }),
{
}

/// The transferable value that a list of accounts holds in all.
pub open spec fn total_value(accounts: Seq<AccountView>) -> int
    decreases accounts.len(),
{
    if accounts.len() == 0 {
        0
    } else {
        total_value(accounts.drop_last()) + accounts.last().lamports
    }
}

/// Replacing one account changes the total by the difference in what the
/// account holds.
pub proof fn lemma_total_value_update(accounts: Seq<AccountView>, i: int, a: AccountView)
    requires
        0 <= i < accounts.len(),
    ensures
        total_value(accounts.update(i, a)) == total_value(accounts) - accounts[i].lamports
            + a.lamports,
    decreases accounts.len(),
{
    let changed = accounts.update(i, a);
    if i == accounts.len() - 1 {
        assert(changed.drop_last() =~= accounts.drop_last());
    } else {
        assert(changed.drop_last() =~= accounts.drop_last().update(i, a));
        lemma_total_value_update(accounts.drop_last(), i, a);
    }
}

/// Value conservation: an instruction moves value between the accounts and
/// neither makes nor destroys any. A withdrawal takes the whole value of its
/// amount out of the vault pool, the fee to the treasury pool and the rest
/// to the authority.
pub proof fn value_is_conserved(
    program_id: Seq<u8>,
    accounts: Seq<AccountView>,
    instruction: InstructionView,
)
    requires
        process_spec(program_id, accounts, instruction) is Ok,
    ensures
        total_value(process_spec(program_id, accounts, instruction).unwrap()) == total_value(
            accounts,
        ),
        instruction matches InstructionView::Withdraw { amount, .. } ==> ({
            let after = process_spec(program_id, accounts, instruction).unwrap();
            &&& after[2].lamports == accounts[2].lamports - unit_value(amount)
            &&& after[3].lamports == accounts[3].lamports + withdrawal_fee(amount)
            &&& after[0].lamports == accounts[0].lamports + withdrawal_net(amount)
            &&& withdrawal_fee(amount) + withdrawal_net(amount) == unit_value(amount)
        }),
{
    match instruction {
        InstructionView::InitializeVault { vault_id } => {
            let after = process_spec(program_id, accounts, instruction).unwrap();
            lemma_total_value_update(accounts, 2, after[2]);
            assert(after =~= accounts.update(2, after[2]));
        },
        InstructionView::Deposit { vault_id, user_pubkey, amount, fund_status, bot_status } => {
            let after = deposit_effect(
                accounts,
                vault_id,
                user_pubkey,
                amount,
                fund_status,
                bot_status,
            );
            let s0 = accounts.update(0, after[0]);
            let s1 = s0.update(1, after[1]);
            lemma_total_value_update(accounts, 0, after[0]);
            lemma_total_value_update(s0, 1, after[1]);
            lemma_total_value_update(s1, 2, after[2]);
            assert(after =~= s1.update(2, after[2]));
        },
        InstructionView::Withdraw { vault_id, user_pubkey, amount, fund_status, bot_status } => {
            fee_is_exact(amount);
            let after = withdraw_effect(accounts, vault_id, amount, fund_status, bot_status);
            let s0 = accounts.update(0, after[0]);
            let s1 = s0.update(1, after[1]);
            let s2 = s1.update(2, after[2]);
            lemma_total_value_update(accounts, 0, after[0]);
            lemma_total_value_update(s0, 1, after[1]);
            lemma_total_value_update(s1, 2, after[2]);
            lemma_total_value_update(s2, 3, after[3]);
            assert(after =~= s2.update(3, after[3]));
        },
    }
}

/// Address authentication, for a withdrawal: an account whose address is not
/// the one derived for its role has the withdrawal rejected, whichever of
/// the three roles it is. Where nothing else is amiss, the error is
/// `InvalidDerivation`.
pub proof fn withdraw_rejects_wrong_address(
    user: Option<(Seq<u8>, u8)>,
    treasury: Option<(Seq<u8>, u8)>,
    vault: Option<(Seq<u8>, u8)>,
    accounts: Seq<AccountView>,
    vault_id: Seq<char>,
    user_pubkey: Seq<char>,
    amount: u32,
    fund_status: Seq<char>,
    bot_status: Seq<char>,
)
    requires
        accounts.len() >= 4,
        derivation_check(user, accounts[1].key) is Err || derivation_check(
            treasury,
            accounts[3].key,
        ) is Err || derivation_check(vault, accounts[2].key) is Err,
    ensures
        ({
            let outcome = withdraw_outcome(
                user,
                treasury,
                vault,
                accounts,
                vault_id,
                user_pubkey,
                amount,
                fund_status,
                bot_status,
            );
            &&& outcome is Err
            &&& withdraw_is_otherwise_sound(
                accounts,
                vault_id,
                user_pubkey,
                amount,
                fund_status,
                bot_status,
            ) ==> outcome == Err::<Seq<AccountView>, VaultError>(VaultError::InvalidDerivation)
        }),
{
}

/// Whether a withdrawal passes every check that is not on an address.
pub open spec fn withdraw_is_otherwise_sound(
    accounts: Seq<AccountView>,
    vault_id: Seq<char>,
    user_pubkey: Seq<char>,
    amount: u32,
    fund_status: Seq<char>,
    bot_status: Seq<char>,
) -> bool {
    &&& accounts.len() >= 4
    &&& accounts[0].is_signer
    &&& packed_size(vault_id, user_pubkey, fund_status, bot_status) <= MAX_RECORD_LEN
    &&& live_record(accounts[1].data) matches Ok(Some(prior)) && prior.amount >= amount
        && storable(
        withdrawn(prior, vault_id, amount, fund_status, bot_status),
        accounts[1].data.len(),
    )
    &&& accounts[2].lamports >= unit_value(amount)
    &&& accounts[3].lamports + withdrawal_fee(amount) <= u64::MAX
    &&& accounts[0].lamports + withdrawal_net(amount) <= u64::MAX
}

/// Whether a deposit passes every check that is not on an address.
pub open spec fn deposit_is_otherwise_sound(
    accounts: Seq<AccountView>,
    vault_id: Seq<char>,
    user_pubkey: Seq<char>,
    amount: u32,
    fund_status: Seq<char>,
    bot_status: Seq<char>,
) -> bool {
    &&& accounts.len() >= 3
    &&& accounts[0].is_signer
    &&& live_record(accounts[1].data) matches Ok(prior) && storable(
        deposited(prior, vault_id, user_pubkey, amount, fund_status, bot_status),
        accounts[1].data.len(),
    )
    &&& ledger_balance(accounts[1].data) + amount <= u32::MAX
    &&& accounts[0].lamports >= unit_value(amount)
    &&& accounts[2].lamports + unit_value(amount) <= u64::MAX
}

/// Address authentication, for a deposit: an account whose address is not
/// the one derived for its role has the deposit rejected, whichever of the
/// two roles it is. Where nothing else is amiss, the error is
/// `InvalidDerivation`.
pub proof fn deposit_rejects_wrong_address(
    user: Option<(Seq<u8>, u8)>,
    vault: Option<(Seq<u8>, u8)>,
    accounts: Seq<AccountView>,
    vault_id: Seq<char>,
    user_pubkey: Seq<char>,
    amount: u32,
    fund_status: Seq<char>,
    bot_status: Seq<char>,
)
    requires
        accounts.len() >= 3,
        derivation_check(user, accounts[1].key) is Err || derivation_check(
            vault,
            accounts[2].key,
        ) is Err,
    ensures
        ({
            let outcome = deposit_outcome(
                user,
                vault,
                accounts,
                vault_id,
                user_pubkey,
                amount,
                fund_status,
                bot_status,
            );
            &&& outcome is Err
            &&& deposit_is_otherwise_sound(
                accounts,
                vault_id,
                user_pubkey,
                amount,
                fund_status,
                bot_status,
            ) ==> outcome == Err::<Seq<AccountView>, VaultError>(VaultError::InvalidDerivation)
        }),
{
}

/// Address authentication, for initializing a vault: a pool whose address
/// is not the one derived for the vault is rejected, with
/// `InvalidDerivation` where the authority signed.
pub proof fn initialize_rejects_wrong_address(vault: Option<(Seq<u8>, u8)>, accounts: Seq<AccountView>)
    requires
        accounts.len() >= 3,
        derivation_check(vault, accounts[2].key) is Err,
    ensures
        initialize_outcome(vault, accounts) is Err,
        accounts[0].is_signer ==> initialize_outcome(vault, accounts) == Err::<
            (Seq<AccountView>, u8),
            VaultError,
        >(VaultError::InvalidDerivation),
{
}

/// With every address right and nothing else amiss, the operations go
/// through: the checks reject nothing that they should accept.
pub proof fn sound_operations_are_accepted(
    user: Option<(Seq<u8>, u8)>,
    treasury: Option<(Seq<u8>, u8)>,
    vault: Option<(Seq<u8>, u8)>,
    accounts: Seq<AccountView>,
    vault_id: Seq<char>,
    user_pubkey: Seq<char>,
    amount: u32,
    fund_status: Seq<char>,
    bot_status: Seq<char>,
)
    requires
        accounts.len() >= 3,
        derivation_check(user, accounts[1].key) is Ok,
        derivation_check(vault, accounts[2].key) is Ok,
    ensures
        deposit_is_otherwise_sound(
            accounts,
            vault_id,
            user_pubkey,
            amount,
            fund_status,
            bot_status,
        ) ==> deposit_outcome(
            user,
            vault,
            accounts,
            vault_id,
            user_pubkey,
            amount,
            fund_status,
            bot_status,
        ) is Ok,
        withdraw_is_otherwise_sound(
            accounts,
            vault_id,
            user_pubkey,
            amount,
            fund_status,
            bot_status,
        ) && derivation_check(treasury, accounts[3].key) is Ok ==> withdraw_outcome(
            user,
            treasury,
            vault,
            accounts,
            vault_id,
            user_pubkey,
            amount,
            fund_status,
            bot_status,
        ) is Ok,
        accounts[0].is_signer ==> initialize_outcome(vault, accounts) is Ok,
{
    fee_is_exact(amount);
}

/// The accounts after an instruction: as the instruction left them, or as
/// they were if it was rejected.
pub open spec fn state_after(
    program_id: Seq<u8>,
    accounts: Seq<AccountView>,
    instruction: InstructionView,
) -> Seq<AccountView> {
    match process_spec(program_id, accounts, instruction) {
        Ok(after) => after,
        Err(_) => accounts,
    }
}

/// Idempotent rejection: an instruction that is rejected leaves the
/// accounts as they were, and given again it is rejected again, for the
/// same reason, and leaves them as they were again.
pub proof fn rejection_is_idempotent(
    program_id: Seq<u8>,
    accounts: Seq<AccountView>,
    instruction: InstructionView,
)
    requires
        process_spec(program_id, accounts, instruction) is Err,
    ensures
        state_after(program_id, accounts, instruction) == accounts,
        process_spec(program_id, state_after(program_id, accounts, instruction), instruction)
            == process_spec(program_id, accounts, instruction),
        state_after(
            program_id,
            state_after(program_id, accounts, instruction),
            instruction,
        ) == accounts,
{
}

/// Uninitialized guard: against storage that was never written, a
/// withdrawal that gets as far as reading the record is rejected with
/// `UninitializedAccount`, while a deposit with nothing amiss is accepted
/// and leaves an initialized record that holds the amount for the user.
pub proof fn unwritten_record_is_guarded(
    user: Option<(Seq<u8>, u8)>,
    treasury: Option<(Seq<u8>, u8)>,
    vault: Option<(Seq<u8>, u8)>,
    accounts: Seq<AccountView>,
    vault_id: Seq<char>,
    user_pubkey: Seq<char>,
    amount: u32,
    fund_status: Seq<char>,
    bot_status: Seq<char>,
)
    requires
        accounts.len() >= 3,
        all_zero(accounts[1].data),
        accounts[0].is_signer,
        derivation_check(user, accounts[1].key) is Ok,
    ensures
        live_record(accounts[1].data) == Ok::<Option<RecordView>, VaultError>(None),
        accounts.len() >= 4 && packed_size(vault_id, user_pubkey, fund_status, bot_status)
            <= MAX_RECORD_LEN ==> withdraw_outcome(
            user,
            treasury,
            vault,
            accounts,
            vault_id,
            user_pubkey,
            amount,
            fund_status,
            bot_status,
        ) == Err::<Seq<AccountView>, VaultError>(VaultError::UninitializedAccount),
        derivation_check(vault, accounts[2].key) is Ok && deposit_is_otherwise_sound(
            accounts,
            vault_id,
            user_pubkey,
            amount,
            fund_status,
            bot_status,
        ) ==> ({
            let outcome = deposit_outcome(
                user,
                vault,
                accounts,
                vault_id,
                user_pubkey,
                amount,
                fund_status,
                bot_status,
            );
            &&& outcome is Ok
            &&& live_record(outcome.unwrap()[1].data) == Ok::<Option<RecordView>, VaultError>(
                Some(
                    RecordView {
                        is_initialized: true,
                        vault_id,
                        user_pubkey,
                        amount,
                        fund_status,
                        bot_status,
                    },
                ),
            )
        }),
{
    unwritten_is_not_live(accounts[1].data);
    if derivation_check(vault, accounts[2].key) is Ok && deposit_is_otherwise_sound(
        accounts,
        vault_id,
        user_pubkey,
        amount,
        fund_status,
        bot_status,
    ) {
        let fresh = deposited(None, vault_id, user_pubkey, amount, fund_status, bot_status);
        stored_record_is_live(accounts[1].data, fresh);
    }
}

/// Size ceiling: a deposit or a withdrawal whose record would take more
/// than 1000 bytes is rejected, and one that is accepted leaves a record of
/// at most 1000 bytes. Where everything up to the size check is in order,
/// the error is `RecordTooLarge`.
pub proof fn oversized_record_is_rejected(
    user: Option<(Seq<u8>, u8)>,
    treasury: Option<(Seq<u8>, u8)>,
    vault: Option<(Seq<u8>, u8)>,
    accounts: Seq<AccountView>,
    vault_id: Seq<char>,
    user_pubkey: Seq<char>,
    amount: u32,
    fund_status: Seq<char>,
    bot_status: Seq<char>,
)
    requires
        accounts.len() >= 4,
        accounts[0].is_signer,
        derivation_check(user, accounts[1].key) is Ok,
        live_record(accounts[1].data) is Ok,
    ensures
        ({
            let prior = live_record(accounts[1].data).unwrap();
            let updated = deposited(prior, vault_id, user_pubkey, amount, fund_status, bot_status);
            let outcome = deposit_outcome(
                user,
                vault,
                accounts,
                vault_id,
                user_pubkey,
                amount,
                fund_status,
                bot_status,
            );
            &&& record_len(updated) > MAX_RECORD_LEN ==> outcome == Err::<Seq<AccountView>, VaultError>(
                VaultError::RecordTooLarge,
            )
            &&& outcome is Ok ==> record_len(updated) <= MAX_RECORD_LEN && live_record(
                outcome.unwrap()[1].data,
            ) == Ok::<Option<RecordView>, VaultError>(Some(updated))
        }),
        ({
            let outcome = withdraw_outcome(
                user,
                treasury,
                vault,
                accounts,
                vault_id,
                user_pubkey,
                amount,
                fund_status,
                bot_status,
            );
            &&& packed_size(vault_id, user_pubkey, fund_status, bot_status) > MAX_RECORD_LEN ==> outcome
                == Err::<Seq<AccountView>, VaultError>(VaultError::RecordTooLarge)
            &&& outcome is Ok ==> ({
                let prior = live_record(accounts[1].data).unwrap().unwrap();
                let updated = withdrawn(prior, vault_id, amount, fund_status, bot_status);
                &&& record_len(updated) <= MAX_RECORD_LEN
                &&& live_record(outcome.unwrap()[1].data) == Ok::<
                    Option<RecordView>,
                    VaultError,
                >(Some(updated))
            })
        }),
{
    let prior = live_record(accounts[1].data).unwrap();
    let credited = deposited(prior, vault_id, user_pubkey, amount, fund_status, bot_status);
    if storable(credited, accounts[1].data.len()) {
        stored_record_is_live(accounts[1].data, credited);
    }
    if prior is Some {
        let debited = withdrawn(prior.unwrap(), vault_id, amount, fund_status, bot_status);
        if storable(debited, accounts[1].data.len()) {
            stored_record_is_live(accounts[1].data, debited);
        }
    }
}

} // verus!
