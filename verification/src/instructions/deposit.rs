use vstd::prelude::*;
use vstd::utf8::encode_utf8;
use crate::account::{views, Account, AccountView, Address};
use crate::codec::packed_len;
use crate::error::VaultError;
use crate::fee::{to_lamports, unit_value};
use crate::ledger::{deposited, live_record, load, storable, store, stored};
use crate::pda::{
    check_derived, derivation_check, derived_view, find_program_address, program_address,
    seeds_of_user_record, seeds_of_vault_pool, user_record_seeds, vault_pool_seeds, Derived,
    MAX_SEED_LEN,
};
use crate::state::VaultAccountState;

verus! {

/// The accounts after a deposit that passed every check: the record is
/// written, and the value of the amount goes from the authority to the vault
/// pool.
pub open spec fn deposit_effect(
    accounts: Seq<AccountView>,
    vault_id: Seq<char>,
    user_pubkey: Seq<char>,
    amount: u32,
    fund_status: Seq<char>,
    bot_status: Seq<char>,
) -> Seq<AccountView>
    recommends
        accounts.len() >= 3,
        live_record(accounts[1].data) is Ok,
{
    let prior = live_record(accounts[1].data).unwrap();
    let updated = deposited(prior, vault_id, user_pubkey, amount, fund_status, bot_status);
    let value = unit_value(amount);
    accounts.update(
        0,
        AccountView { lamports: (accounts[0].lamports - value) as u64, ..accounts[0] },
    ).update(1, AccountView { data: stored(accounts[1].data, updated), ..accounts[1] }).update(
        2,
        AccountView { lamports: (accounts[2].lamports + value) as u64, ..accounts[2] },
    )
}

/// What a deposit does, given the addresses derived for the user's record
/// and the vault pool: the first check that fails decides the error, and if
/// none fails the accounts change as `deposit_effect` says. The accounts are
/// the authority, the user's record and the vault pool, in this order. A
/// record that was never written is written for the first time.
pub open spec fn deposit_outcome(
    user: Option<(Seq<u8>, u8)>,
    vault: Option<(Seq<u8>, u8)>,
    accounts: Seq<AccountView>,
    vault_id: Seq<char>,
    user_pubkey: Seq<char>,
    amount: u32,
    fund_status: Seq<char>,
    bot_status: Seq<char>,
) -> Result<Seq<AccountView>, VaultError> {
    if accounts.len() < 3 {
        Err(VaultError::NotEnoughAccountKeys)
    } else if !accounts[0].is_signer {
        Err(VaultError::MissingSignature)
    } else if derivation_check(user, accounts[1].key) is Err {
        Err(VaultError::InvalidDerivation)
    } else {
        match live_record(accounts[1].data) {
            Err(e) => Err(e),
            Ok(prior) => {
                let updated = deposited(
                    prior,
                    vault_id,
                    user_pubkey,
                    amount,
                    fund_status,
                    bot_status,
                );
                let balance: int = match prior {
                    Some(r) => r.amount as int,
                    None => 0,
                };
                let value = unit_value(amount);
                if !storable(updated, accounts[1].data.len()) {
                    Err(VaultError::RecordTooLarge)
                } else if balance + amount > u32::MAX {
                    Err(VaultError::ArithmeticOverflow)
                } else if derivation_check(vault, accounts[2].key) is Err {
                    Err(VaultError::InvalidDerivation)
                } else if accounts[0].lamports < value || accounts[2].lamports + value
                    > u64::MAX {
                    Err(VaultError::ArithmeticOverflow)
                } else {
                    Ok(
                        deposit_effect(
                            accounts,
                            vault_id,
                            user_pubkey,
                            amount,
                            fund_status,
                            bot_status,
                        ),
                    )
                }
            },
        }
    }
}

/// What a deposit does under `program_id`: `deposit_outcome` with the
/// addresses that the two roles' seeds derive to.
pub open spec fn deposit_spec(
    program_id: Seq<u8>,
    accounts: Seq<AccountView>,
    vault_id: Seq<char>,
    user_pubkey: Seq<char>,
    amount: u32,
    fund_status: Seq<char>,
    bot_status: Seq<char>,
) -> Result<Seq<AccountView>, VaultError> {
    deposit_outcome(
        program_address(user_record_seeds(accounts[0].key, user_pubkey), program_id),
        program_address(vault_pool_seeds(vault_id), program_id),
        accounts,
        vault_id,
        user_pubkey,
        amount,
        fund_status,
        bot_status,
    )
}

/// Deposits `amount` ledger units, given the addresses derived for the two
/// roles. On an error no account changes.
pub fn deposit_with_addresses(
    user: &Option<Derived>,
    vault: &Option<Derived>,
    accounts: &mut Vec<Account>,
    vault_id: String,
    user_pubkey: String,
    amount: u32,
    fund_status: String,
    bot_status: String,
) -> (r: Result<(), VaultError>)
    ensures
        match deposit_outcome(
            derived_view(*user),
            derived_view(*vault),
            views(old(accounts)@),
            vault_id@,
            user_pubkey@,
            amount,
            fund_status@,
            bot_status@,
        ) {
            Ok(after) => r is Ok && views(final(accounts)@) == after,
            Err(e) => r == Err::<(), VaultError>(e) && final(accounts)@ == old(accounts)@,
        },
{
    if accounts.len() < 3 {
        return Err(VaultError::NotEnoughAccountKeys);
    }
    if !accounts[0].is_signer {
        return Err(VaultError::MissingSignature);
    }
    check_derived(user, &accounts[1].key)?;
    let (owner, balance) = match load(accounts[1].data.as_slice())? {
        None => (user_pubkey, 0u32),
        Some(record) => (record.user_pubkey, record.amount),
    };
    let size: usize = match packed_len(
        vault_id.as_str(),
        owner.as_str(),
        fund_status.as_str(),
        bot_status.as_str(),
    ) {
        None => { return Err(VaultError::RecordTooLarge); },
        Some(size) => size,
    };
    if size > accounts[1].data.len() {
        return Err(VaultError::RecordTooLarge);
    }
    let credited: u32 = match balance.checked_add(amount) {
        None => { return Err(VaultError::ArithmeticOverflow); },
        Some(sum) => sum,
    };
    let updated = VaultAccountState {
        is_initialized: true,
        vault_id,
        user_pubkey: owner,
        amount: credited,
        fund_status,
        bot_status,
    };
    let data = store(&accounts[1].data, &updated)?;
    check_derived(vault, &accounts[2].key)?;
    let value: u64 = to_lamports(amount);
    let authority_after: u64 = match accounts[0].lamports.checked_sub(value) {
        None => { return Err(VaultError::ArithmeticOverflow); },
        Some(left) => left,
    };
    let vault_after: u64 = match accounts[2].lamports.checked_add(value) {
        None => { return Err(VaultError::ArithmeticOverflow); },
        Some(sum) => sum,
    };
    accounts[0].lamports = authority_after;
    accounts[1].data = data;
    accounts[2].lamports = vault_after;
    assert(views(accounts@) =~= deposit_effect(
        views(old(accounts)@),
        updated@.vault_id,
        user_pubkey@,
        amount,
        updated@.fund_status,
        updated@.bot_status,
    ));
    Ok(())
}

/// Credits `amount` ledger units to the user's record, writing it for the
/// first time if it was never written, and moves their value from the
/// authority to the vault pool. The accounts are the authority, the user's
/// record and the vault pool, in this order. On an error no account changes.
pub fn deposit(
    program_id: &Address,
    accounts: &mut Vec<Account>,
    vault_id: String,
    user_pubkey: String,
    amount: u32,
    fund_status: String,
    bot_status: String,
) -> (r: Result<(), VaultError>)
    ensures
        match deposit_spec(
            program_id@,
            views(old(accounts)@),
            vault_id@,
            user_pubkey@,
            amount,
            fund_status@,
            bot_status@,
        ) {
            Ok(after) => r is Ok && views(final(accounts)@) == after,
            Err(e) => r == Err::<(), VaultError>(e) && final(accounts)@ == old(accounts)@,
        },
        old(accounts)@.len() >= 3 && old(accounts)@[0].is_signer && encode_utf8(
            user_pubkey@,
        ).len() > MAX_SEED_LEN ==> r == Err::<(), VaultError>(VaultError::InvalidDerivation),
{
    if accounts.len() < 3 {
        return Err(VaultError::NotEnoughAccountKeys);
    }
    proof {
        let seeds = user_record_seeds(accounts@[0].key@, user_pubkey@);
        assert(seeds[1] == encode_utf8(user_pubkey@));
    }
    let user = find_program_address(
        &seeds_of_user_record(&accounts[0].key, user_pubkey.as_str()),
        program_id,
    );
    let vault = find_program_address(&seeds_of_vault_pool(vault_id.as_str()), program_id);
    deposit_with_addresses(
        &user,
        &vault,
        accounts,
        vault_id,
        user_pubkey,
        amount,
        fund_status,
        bot_status,
    )
}

} // verus!
