use solana_program::pubkey::Pubkey;
use vault_program::account::same_address;
use vault_program::error::VaultError;
use vault_program::pda::{
    check_derived, seeds_of_treasury_pool, seeds_of_user_record, seeds_of_vault_pool, validate,
    Derived, MAX_SEEDS, MAX_SEED_LEN,
};

const PROGRAM: [u8; 32] = [9u8; 32];

fn derived(seeds: &[&[u8]]) -> [u8; 32] {
    Pubkey::find_program_address(seeds, &Pubkey::new_from_array(PROGRAM)).0.to_bytes()
}

#[test]
fn validate_accepts_the_derived_address() {
    let seeds = vec![b"vault-1".to_vec()];
    let address = derived(&[b"vault-1"]);
    assert_eq!(validate(&seeds, &address, &PROGRAM), Ok(()));
}

#[test]
fn validate_rejects_another_address() {
    let seeds = vec![b"vault-1".to_vec()];
    let mut address = derived(&[b"vault-1"]);
    address[31] ^= 1;
    assert_eq!(validate(&seeds, &address, &PROGRAM), Err(VaultError::InvalidDerivation));
}

#[test]
fn validate_rejects_the_seed_itself_as_an_address() {
    let seed = [3u8; 32];
    let seeds = vec![seed.to_vec()];
    assert_eq!(validate(&seeds, &seed, &PROGRAM), Err(VaultError::InvalidDerivation));
    assert_eq!(validate(&seeds, &PROGRAM, &PROGRAM), Err(VaultError::InvalidDerivation));
}

#[test]
fn validate_depends_on_the_program() {
    let seeds = vec![b"vault-1".to_vec()];
    let address = derived(&[b"vault-1"]);
    let other = [10u8; 32];
    assert_eq!(validate(&seeds, &address, &other), Err(VaultError::InvalidDerivation));
}

#[test]
fn an_address_of_one_role_is_not_accepted_for_another() {
    let vault = derived(&[b"vault-1"]);
    let treasury = derived(&[b"treasury", b"vault-1"]);
    assert_ne!(vault, treasury);
    assert_eq!(validate(&seeds_of_vault_pool("vault-1"), &vault, &PROGRAM), Ok(()));
    assert_eq!(validate(&seeds_of_treasury_pool("vault-1"), &treasury, &PROGRAM), Ok(()));
    assert_eq!(
        validate(&seeds_of_vault_pool("vault-1"), &treasury, &PROGRAM),
        Err(VaultError::InvalidDerivation)
    );
    assert_eq!(
        validate(&seeds_of_treasury_pool("vault-1"), &vault, &PROGRAM),
        Err(VaultError::InvalidDerivation)
    );
}

#[test]
fn validate_rejects_a_seed_that_is_too_long() {
    assert_eq!(MAX_SEED_LEN, 32);
    let seeds = vec![vec![1u8; 33]];
    assert_eq!(validate(&seeds, &[0u8; 32], &PROGRAM), Err(VaultError::InvalidDerivation));
    let at_the_limit = vec![vec![1u8; 32]];
    let address = derived(&[&[1u8; 32]]);
    assert_eq!(validate(&at_the_limit, &address, &PROGRAM), Ok(()));
}

#[test]
fn validate_rejects_too_many_seeds() {
    assert_eq!(MAX_SEEDS, 16);
    let seeds: Vec<Vec<u8>> = (0..16u8).map(|i| vec![i]).collect();
    assert_eq!(validate(&seeds, &[0u8; 32], &PROGRAM), Err(VaultError::InvalidDerivation));
    let fifteen: Vec<Vec<u8>> = (0..15u8).map(|i| vec![i]).collect();
    let parts: Vec<&[u8]> = fifteen.iter().map(|s| s.as_slice()).collect();
    assert_eq!(validate(&fifteen, &derived(&parts), &PROGRAM), Ok(()));
}

#[test]
fn check_derived_compares_with_what_was_found() {
    let found = Some(Derived { address: [5u8; 32], bump: 254 });
    assert_eq!(check_derived(&found, &[5u8; 32]), Ok(()));
    assert_eq!(check_derived(&found, &[6u8; 32]), Err(VaultError::InvalidDerivation));
    assert_eq!(check_derived(&None, &[5u8; 32]), Err(VaultError::InvalidDerivation));
}

#[test]
fn seeds_are_built_role_by_role() {
    let authority = [4u8; 32];
    assert_eq!(seeds_of_user_record(&authority, "bob"), vec![authority.to_vec(), b"bob".to_vec()]);
    assert_eq!(seeds_of_vault_pool("v9"), vec![b"v9".to_vec()]);
    assert_eq!(seeds_of_treasury_pool("v9"), vec![b"treasury".to_vec(), b"v9".to_vec()]);
}

#[test]
fn same_address_compares_every_byte() {
    let a = [1u8; 32];
    let mut b = a;
    assert!(same_address(&a, &b));
    b[31] = 2;
    assert!(!same_address(&a, &b));
    b = a;
    b[0] = 0;
    assert!(!same_address(&a, &b));
}
