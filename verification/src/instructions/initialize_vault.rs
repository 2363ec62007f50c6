use vstd::prelude::*;
use crate::account::{same_address, views, Account, AccountView, Address};
use crate::error::VaultError;
use crate::pda::{
    derived_view, find_program_address, program_address, seeds_of_vault_pool, vault_pool_seeds,
    Derived,
};

verus! {

/// Pool storage in its first state: every byte zero.
pub open spec fn zeroed(len: nat) -> Seq<u8> {
    Seq::new(len, |i: int| 0u8)
}

/// What initializing a vault does, given the address derived for its pool:
/// the first check that fails decides the error, and if none fails the
/// pool's storage is zeroed and the bump seed of its address is handed back.
/// The vault pool is the third account, behind the authority and the place
/// of a user's record.
pub open spec fn initialize_outcome(
    vault: Option<(Seq<u8>, u8)>,
    accounts: Seq<AccountView>,
) -> Result<(Seq<AccountView>, u8), VaultError> {
    if accounts.len() < 3 {
        Err(VaultError::NotEnoughAccountKeys)
    } else if !accounts[0].is_signer {
        Err(VaultError::MissingSignature)
    } else {
        match vault {
            Some((address, bump)) => if address == accounts[2].key {
                Ok(
                    (
                        accounts.update(
                            2,
                            AccountView { data: zeroed(accounts[2].data.len()), ..accounts[2] },
                        ),
                        bump,
                    ),
                )
            } else {
                Err(VaultError::InvalidDerivation)
            },
            None => Err(VaultError::InvalidDerivation),
        }
    }
}

/// What initializing the vault `vault_id` does under `program_id`.
pub open spec fn initialize_spec(
    program_id: Seq<u8>,
    accounts: Seq<AccountView>,
    vault_id: Seq<char>,
) -> Result<(Seq<AccountView>, u8), VaultError> {
    initialize_outcome(program_address(vault_pool_seeds(vault_id), program_id), accounts)
}

/// Initializes a vault's pool, given the address derived for it. On an
/// error no account changes.
pub fn initialize_with_address(vault: &Option<Derived>, accounts: &mut Vec<Account>) -> (r: Result<
    u8,
    VaultError,
>)
    ensures
        match initialize_outcome(derived_view(*vault), views(old(accounts)@)) {
            Ok((after, bump)) => r == Ok::<u8, VaultError>(bump) && views(final(accounts)@)
                == after,
            Err(e) => r == Err::<u8, VaultError>(e) && final(accounts)@ == old(accounts)@,
        },
{
    if accounts.len() < 3 {
        return Err(VaultError::NotEnoughAccountKeys);
    }
    if !accounts[0].is_signer {
        return Err(VaultError::MissingSignature);
    }
    let found = match vault {
        None => { return Err(VaultError::InvalidDerivation); },
        Some(found) => found,
    };
    if !same_address(&found.address, &accounts[2].key) {
        return Err(VaultError::InvalidDerivation);
    }
    let len: usize = accounts[2].data.len();
    let mut data: Vec<u8> = Vec::with_capacity(len);
    while data.len() < len
        invariant
            data@.len() <= len,
            forall|i: int| 0 <= i < data@.len() ==> data@[i] == 0,
        decreases len - data@.len(),
    {
        data.push(0u8);
    }
    assert(data@ =~= zeroed(len as nat));
    accounts[2].data = data;
    assert(views(accounts@) =~= initialize_outcome(
        derived_view(*vault),
        views(old(accounts)@),
    ).unwrap().0);
    Ok(found.bump)
}

/// Initializes the pool of the vault `vault_id`: checks that the authority
/// signed and that the third account is the vault's pool, zeroes the pool's
/// storage, and hands back the bump seed of the pool's address. On an error
/// no account changes.
pub fn initialize_vault(program_id: &Address, accounts: &mut Vec<Account>, vault_id: String) -> (r:
    Result<u8, VaultError>)
    ensures
        match initialize_spec(program_id@, views(old(accounts)@), vault_id@) {
            Ok((after, bump)) => r == Ok::<u8, VaultError>(bump) && views(final(accounts)@)
                == after,
            Err(e) => r == Err::<u8, VaultError>(e) && final(accounts)@ == old(accounts)@,
        },
{
    let vault = find_program_address(&seeds_of_vault_pool(vault_id.as_str()), program_id);
    initialize_with_address(&vault, accounts)
}

} // verus!
