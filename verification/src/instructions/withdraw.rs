use vstd::prelude::*;
use vstd::utf8::encode_utf8;
use crate::account::{views, Account, AccountView, Address};
use crate::codec::{packed_len, packed_size, MAX_RECORD_LEN};
use crate::error::VaultError;
use crate::fee::{settle, withdrawal_fee, withdrawal_net};
use crate::ledger::{live_record, load, storable, store, stored, withdrawn};
use crate::pda::{
    check_derived, derivation_check, derived_view, find_program_address, program_address,
    seeds_of_treasury_pool, seeds_of_user_record, seeds_of_vault_pool, treasury_pool_seeds,
    user_record_seeds, vault_pool_seeds, Derived, MAX_SEED_LEN,
};
use crate::state::VaultAccountState;

verus! {

/// The accounts after a withdrawal that passed every check: the record is
/// rewritten, the fee goes from the vault pool to the treasury pool, and the
/// rest of the value goes from the vault pool to the authority.
pub open spec fn withdraw_effect(
    accounts: Seq<AccountView>,
    vault_id: Seq<char>,
    amount: u32,
    fund_status: Seq<char>,
    bot_status: Seq<char>,
) -> Seq<AccountView>
    recommends
        accounts.len() >= 4,
        live_record(accounts[1].data) is Ok,
        live_record(accounts[1].data).unwrap() is Some,
{
    let prior = live_record(accounts[1].data).unwrap().unwrap();
    let updated = withdrawn(prior, vault_id, amount, fund_status, bot_status);
    let fee = withdrawal_fee(amount);
    let net = withdrawal_net(amount);
    accounts.update(
        0,
        AccountView { lamports: (accounts[0].lamports + net) as u64, ..accounts[0] },
    ).update(1, AccountView { data: stored(accounts[1].data, updated), ..accounts[1] }).update(
        2,
        AccountView { lamports: (accounts[2].lamports - fee - net) as u64, ..accounts[2] },
    ).update(3, AccountView { lamports: (accounts[3].lamports + fee) as u64, ..accounts[3] })
}

/// What a withdrawal does, given the addresses derived for the user's
/// record, the treasury pool and the vault pool: the first check that fails
/// decides the error, and if none fails the accounts change as
/// `withdraw_effect` says. The accounts are the authority, the user's record,
/// the vault pool and the treasury pool, in this order.
pub open spec fn withdraw_outcome(
    user: Option<(Seq<u8>, u8)>,
    treasury: Option<(Seq<u8>, u8)>,
    vault: Option<(Seq<u8>, u8)>,
    accounts: Seq<AccountView>,
    vault_id: Seq<char>,
    user_pubkey: Seq<char>,
    amount: u32,
    fund_status: Seq<char>,
    bot_status: Seq<char>,
) -> Result<Seq<AccountView>, VaultError> {
    if accounts.len() < 4 {
        Err(VaultError::NotEnoughAccountKeys)
    } else if !accounts[0].is_signer {
        Err(VaultError::MissingSignature)
    } else if derivation_check(user, accounts[1].key) is Err {
        Err(VaultError::InvalidDerivation)
    } else if packed_size(vault_id, user_pubkey, fund_status, bot_status) > MAX_RECORD_LEN {
        Err(VaultError::RecordTooLarge)
    } else {
        match live_record(accounts[1].data) {
            Err(e) => Err(e),
            Ok(None) => Err(VaultError::UninitializedAccount),
            Ok(Some(prior)) => {
                let updated = withdrawn(prior, vault_id, amount, fund_status, bot_status);
                let fee = withdrawal_fee(amount);
                let net = withdrawal_net(amount);
                if prior.amount < amount {
                    Err(VaultError::InsufficientFunds)
                } else if !storable(updated, accounts[1].data.len()) {
                    Err(VaultError::RecordTooLarge)
                } else if derivation_check(treasury, accounts[3].key) is Err {
                    Err(VaultError::InvalidDerivation)
                } else if accounts[2].lamports < fee || accounts[3].lamports + fee > u64::MAX {
                    Err(VaultError::ArithmeticOverflow)
                } else if derivation_check(vault, accounts[2].key) is Err {
                    Err(VaultError::InvalidDerivation)
                } else if accounts[2].lamports - fee < net || accounts[0].lamports + net
                    > u64::MAX {
                    Err(VaultError::ArithmeticOverflow)
                } else {
                    Ok(withdraw_effect(accounts, vault_id, amount, fund_status, bot_status))
                }
            },
        }
    }
}

/// What a withdrawal does under `program_id`: `withdraw_outcome` with the
/// addresses that the three roles' seeds derive to.
pub open spec fn withdraw_spec(
    program_id: Seq<u8>,
    accounts: Seq<AccountView>,
    vault_id: Seq<char>,
    user_pubkey: Seq<char>,
    amount: u32,
    fund_status: Seq<char>,
    bot_status: Seq<char>,
) -> Result<Seq<AccountView>, VaultError> {
    withdraw_outcome(
        program_address(user_record_seeds(accounts[0].key, user_pubkey), program_id),
        program_address(treasury_pool_seeds(vault_id), program_id),
        program_address(vault_pool_seeds(vault_id), program_id),
        accounts,
        vault_id,
        user_pubkey,
        amount,
        fund_status,
        bot_status,
    )
}

/// Withdraws `amount` ledger units, given the addresses derived for the
/// three roles. On an error no account changes.
pub fn withdraw_with_addresses(
    user: &Option<Derived>,
    treasury: &Option<Derived>,
    vault: &Option<Derived>,
    accounts: &mut Vec<Account>,
    vault_id: String,
    user_pubkey: String,
    amount: u32,
    fund_status: String,
    bot_status: String,
) -> (r: Result<(), VaultError>)
    ensures
        match withdraw_outcome(
            derived_view(*user),
            derived_view(*treasury),
            derived_view(*vault),
            views(old(accounts)@),
            vault_id@,
            user_pubkey@,
            amount,
            fund_status@,
            bot_status@,
        ) {
            Ok(after) => r is Ok && views(final(accounts)@) == after,
            Err(e) => r == Err::<(), VaultError>(e) && final(accounts)@ == old(accounts)@,
        },
{
    if accounts.len() < 4 {
        return Err(VaultError::NotEnoughAccountKeys);
    }
    if !accounts[0].is_signer {
        return Err(VaultError::MissingSignature);
    }
    check_derived(user, &accounts[1].key)?;
    if packed_len(
        vault_id.as_str(),
        user_pubkey.as_str(),
        fund_status.as_str(),
        bot_status.as_str(),
    ).is_none() {
        return Err(VaultError::RecordTooLarge);
    }
    let prior = match load(accounts[1].data.as_slice())? {
        None => { return Err(VaultError::UninitializedAccount); },
        Some(record) => record,
    };
    if prior.amount < amount {
        return Err(VaultError::InsufficientFunds);
    }
    let updated = VaultAccountState {
        is_initialized: true,
        vault_id,
        user_pubkey: prior.user_pubkey,
        amount: prior.amount - amount,
        fund_status,
        bot_status,
    };
    let data = store(&accounts[1].data, &updated)?;
    check_derived(treasury, &accounts[3].key)?;
    let split = settle(amount);
    let vault_less_fee: u64 = match accounts[2].lamports.checked_sub(split.fee) {
        None => { return Err(VaultError::ArithmeticOverflow); },
        Some(left) => left,
    };
    let treasury_after: u64 = match accounts[3].lamports.checked_add(split.fee) {
        None => { return Err(VaultError::ArithmeticOverflow); },
        Some(sum) => sum,
    };
    check_derived(vault, &accounts[2].key)?;
    let vault_after: u64 = match vault_less_fee.checked_sub(split.net) {
        None => { return Err(VaultError::ArithmeticOverflow); },
        Some(left) => left,
    };
    let authority_after: u64 = match accounts[0].lamports.checked_add(split.net) {
        None => { return Err(VaultError::ArithmeticOverflow); },
        Some(sum) => sum,
    };
    accounts[0].lamports = authority_after;
    accounts[1].data = data;
    accounts[2].lamports = vault_after;
    accounts[3].lamports = treasury_after;
    assert(views(accounts@) =~= withdraw_effect(
        views(old(accounts)@),
        updated@.vault_id,
        amount,
        updated@.fund_status,
        updated@.bot_status,
    ));
    Ok(())
}

/// Withdraws `amount` ledger units from the user's record and moves their
/// value out of the vault pool, the fee to the treasury pool and the rest to
/// the authority. The accounts are the authority, the user's record, the
/// vault pool and the treasury pool, in this order. On an error no account
/// changes.
pub fn withdraw(
    program_id: &Address,
    accounts: &mut Vec<Account>,
    vault_id: String,
    user_pubkey: String,
    amount: u32,
    fund_status: String,
    bot_status: String,
) -> (r: Result<(), VaultError>)
    ensures
        match withdraw_spec(
            program_id@,
            views(old(accounts)@),
            vault_id@,
            user_pubkey@,
            amount,
            fund_status@,
            bot_status@,
        ) {
            Ok(after) => r is Ok && views(final(accounts)@) == after,
            Err(e) => r == Err::<(), VaultError>(e) && final(accounts)@ == old(accounts)@,
        },
        old(accounts)@.len() >= 4 && old(accounts)@[0].is_signer && encode_utf8(
            user_pubkey@,
        ).len() > MAX_SEED_LEN ==> r == Err::<(), VaultError>(VaultError::InvalidDerivation),
{
    if accounts.len() < 4 {
        return Err(VaultError::NotEnoughAccountKeys);
    }
    proof {
        let seeds = user_record_seeds(accounts@[0].key@, user_pubkey@);
        assert(seeds[1] == encode_utf8(user_pubkey@));
    }
    let user = find_program_address(
        &seeds_of_user_record(&accounts[0].key, user_pubkey.as_str()),
        program_id,
    );
    let treasury = find_program_address(&seeds_of_treasury_pool(vault_id.as_str()), program_id);
    let vault = find_program_address(&seeds_of_vault_pool(vault_id.as_str()), program_id);
    withdraw_with_addresses(
        &user,
        &treasury,
        &vault,
        accounts,
        vault_id,
        user_pubkey,
        amount,
        fund_status,
        bot_status,
    )
}

} // verus!
