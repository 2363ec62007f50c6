//! Program-derived addresses: the address that the host derives from a list
//! of seeds under a program's identity, and the check that a claimed address
//! is the derived one. Each account role has its own seeds, so an address
//! that is right for one role is not accepted for another.

use vstd::prelude::*;
use vstd::slice::slice_to_vec;
use vstd::utf8::*;
use solana_program::pubkey::Pubkey;
use crate::account::{same_address, Address};
use crate::error::VaultError;

verus! {

/// The most seeds that an address can be derived from; the search for a
/// bump seed adds one to the seeds given.
pub const MAX_SEEDS: usize = 16;

/// The most bytes that a seed may hold.
pub const MAX_SEED_LEN: usize = 32;

/// A derived address with the bump seed that the search settled on.
#[derive(Clone, Copy, Debug, PartialEq, Eq)]
pub struct Derived {
    pub address: Address,
    pub bump: u8,
}

/// The address derived from `seeds` under `program_id`, with its bump seed,
/// where the seeds have one.
pub uninterp spec fn program_address(seeds: Seq<Seq<u8>>, program_id: Seq<u8>) -> Option<
    (Seq<u8>, u8),
>;

/// Whether the seeds leave room for a bump seed and none is too long.
pub open spec fn seeds_admissible(seeds: Seq<Seq<u8>>) -> bool {
    &&& seeds.len() < MAX_SEEDS
    &&& forall|i: int| 0 <= i < seeds.len() ==> (#[trigger] seeds[i]).len() <= MAX_SEED_LEN
}

/// A search result as mathematical values.
pub open spec fn derived_view(d: Option<Derived>) -> Option<(Seq<u8>, u8)> {
    match d {
        Some(found) => Some((found.address@, found.bump)),
        None => None,
    }
}

/// `Pubkey::try_find_program_address`: searches the bump seeds from 255 down
/// for the first that, with the seeds and the program's identity, hashes to
/// an address off the curve. The outcome depends on the arguments alone.
/// With sixteen seeds or more, or a seed of more than 32 bytes, it finds none.
#[verifier::external_body]
pub(crate) fn find_program_address(seeds: &Vec<Vec<u8>>, program_id: &Address) -> (found: Option<Derived>)
    ensures
        derived_view(found) == program_address(seeds.deep_view(), program_id@),
        !seeds_admissible(seeds.deep_view()) ==> found is None,
{
    let parts: Vec<&[u8]> = seeds.iter().map(|seed| seed.as_slice()).collect();
    match Pubkey::try_find_program_address(&parts, &Pubkey::new_from_array(*program_id)) {
        Some((address, bump)) => Some(Derived { address: address.to_bytes(), bump }),
        None => None,
    }
}

/// The tag that sets a treasury's seeds apart from its vault's.
pub open spec fn treasury_tag() -> Seq<u8> {
    seq![116u8, 114u8, 101u8, 97u8, 115u8, 117u8, 114u8, 121u8]
}

/// The seeds of a user's record: the authority's address and the user key.
pub open spec fn user_record_seeds(authority: Seq<u8>, user_pubkey: Seq<char>) -> Seq<Seq<u8>> {
    seq![authority, encode_utf8(user_pubkey)]
}

/// The seeds of a vault's pool: the vault id.
pub open spec fn vault_pool_seeds(vault_id: Seq<char>) -> Seq<Seq<u8>> {
    seq![encode_utf8(vault_id)]
}

/// The seeds of a vault's treasury: the treasury tag and the vault id.
pub open spec fn treasury_pool_seeds(vault_id: Seq<char>) -> Seq<Seq<u8>> {
    seq![treasury_tag(), encode_utf8(vault_id)]
}

/// What checking a claimed address against a search result gives.
pub open spec fn derivation_check(derived: Option<(Seq<u8>, u8)>, claimed: Seq<u8>) -> Result<
    (),
    VaultError,
> {
    match derived {
        Some((address, _)) => if address == claimed {
            Ok(())
        } else {
            Err(VaultError::InvalidDerivation)
        },
        None => Err(VaultError::InvalidDerivation),
    }
}

/// Accepts a claimed address if it is the one that the search found.
pub fn check_derived(derived: &Option<Derived>, claimed: &Address) -> (r: Result<(), VaultError>)
    ensures
        r == derivation_check(derived_view(*derived), claimed@),
{
    match derived {
        Some(found) => if same_address(&found.address, claimed) {
            Ok(())
        } else {
            Err(VaultError::InvalidDerivation)
        },
        None => Err(VaultError::InvalidDerivation),
    }
}

/// Recomputes the address of `expected_seeds` under `program_identity` and
/// accepts `claimed_address` if it is that address.
pub fn validate(expected_seeds: &Vec<Vec<u8>>, claimed_address: &Address, program_identity: &Address) -> (r:
    Result<(), VaultError>)
    ensures
        r == derivation_check(
            program_address(expected_seeds.deep_view(), program_identity@),
            claimed_address@,
        ),
        !seeds_admissible(expected_seeds.deep_view()) ==> r == Err::<(), VaultError>(
            VaultError::InvalidDerivation,
        ),
{
    let derived = find_program_address(expected_seeds, program_identity);
    check_derived(&derived, claimed_address)
}

/// Builds the seeds of a user's record.
pub fn seeds_of_user_record(authority: &Address, user_pubkey: &str) -> (seeds: Vec<Vec<u8>>)
    ensures
        seeds.deep_view() == user_record_seeds(authority@, user_pubkey@),
{
    let mut seeds: Vec<Vec<u8>> = Vec::new();
    seeds.push(slice_to_vec(authority.as_slice()));
    seeds.push(slice_to_vec(user_pubkey.as_bytes()));
    assert(seeds.deep_view() =~~= user_record_seeds(authority@, user_pubkey@));
    seeds
}

/// Builds the seeds of a vault's pool.
pub fn seeds_of_vault_pool(vault_id: &str) -> (seeds: Vec<Vec<u8>>)
    ensures
        seeds.deep_view() == vault_pool_seeds(vault_id@),
{
    let mut seeds: Vec<Vec<u8>> = Vec::new();
    seeds.push(slice_to_vec(vault_id.as_bytes()));
    assert(seeds.deep_view() =~~= vault_pool_seeds(vault_id@));
    seeds
}

/// Builds the seeds of a vault's treasury.
pub fn seeds_of_treasury_pool(vault_id: &str) -> (seeds: Vec<Vec<u8>>)
    ensures
        seeds.deep_view() == treasury_pool_seeds(vault_id@),
{
    let mut seeds: Vec<Vec<u8>> = Vec::new();
    let tag: Vec<u8> = vec![116u8, 114u8, 101u8, 97u8, 115u8, 117u8, 114u8, 121u8];
    assert(tag@ =~= treasury_tag());
    seeds.push(tag);
    seeds.push(slice_to_vec(vault_id.as_bytes()));
    assert(seeds.deep_view() =~~= treasury_pool_seeds(vault_id@));
    seeds
}

} // verus!
