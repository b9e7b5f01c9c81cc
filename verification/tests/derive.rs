use anchor_lang::prelude::Pubkey;
use vprog::address::Address;
use vprog::derive::{
    derive_address, derive_all, derive_shares_mint, derive_vault, shares_tag, vault_a_tag,
    vault_b_tag,
};

fn address(seed: u8) -> Address {
    Address::new([seed; 32])
}

fn key(a: &Address) -> Pubkey {
    Pubkey::new_from_array(a.bytes)
}

#[test]
fn tags_are_the_seed_strings() {
    assert_eq!(vault_a_tag(), b"STRATEGY_VAULT_A_SEED".to_vec());
    assert_eq!(vault_b_tag(), b"STRATEGY_VAULT_B_SEED".to_vec());
    assert_eq!(shares_tag(), b"SHARES_SEEDS".to_vec());
}

#[test]
fn vault_addresses_are_the_program_derived_ones() {
    let program = address(7);
    let strategy = address(42);
    let (expected_a, bump_a) = Pubkey::find_program_address(
        &[b"STRATEGY_VAULT_A_SEED", strategy.bytes.as_ref()],
        &key(&program),
    );
    let (expected_b, bump_b) = Pubkey::find_program_address(
        &[b"STRATEGY_VAULT_B_SEED", strategy.bytes.as_ref()],
        &key(&program),
    );
    let a = derive_vault(vault_a_tag(), &strategy, &program).expect("a bump exists");
    let b = derive_vault(vault_b_tag(), &strategy, &program).expect("a bump exists");
    assert_eq!(a.address.bytes, expected_a.to_bytes());
    assert_eq!(a.bump, bump_a);
    assert_eq!(b.address.bytes, expected_b.to_bytes());
    assert_eq!(b.bump, bump_b);
    assert_ne!(a.address, b.address);
    assert_ne!(a.address, strategy);
    assert_ne!(a.address, program);
}

#[test]
fn share_mint_address_depends_on_both_mints() {
    let program = address(7);
    let strategy = address(42);
    let mint_a = address(1);
    let mint_b = address(2);
    let (expected, bump) = Pubkey::find_program_address(
        &[
            b"SHARES_SEEDS",
            strategy.bytes.as_ref(),
            mint_a.bytes.as_ref(),
            mint_b.bytes.as_ref(),
        ],
        &key(&program),
    );
    let shares = derive_shares_mint(&strategy, &mint_a, &mint_b, &program).expect("a bump exists");
    assert_eq!(shares.address.bytes, expected.to_bytes());
    assert_eq!(shares.bump, bump);
    let swapped = derive_shares_mint(&strategy, &mint_b, &mint_a, &program).expect("a bump exists");
    assert_ne!(swapped.address, shares.address);
}

#[test]
fn derivation_is_repeatable() {
    let program = address(9);
    let strategy = address(3);
    let first = derive_all(&strategy, &address(1), &address(2), &program);
    let second = derive_all(&strategy, &address(1), &address(2), &program);
    assert_eq!(first, second);
    assert!(first.token_a_vault.is_some());
    assert!(first.token_b_vault.is_some());
    assert!(first.shares_mint.is_some());
    let other = derive_all(&address(4), &address(1), &address(2), &program);
    assert_ne!(other.token_a_vault, first.token_a_vault);
    let elsewhere = derive_all(&strategy, &address(1), &address(2), &address(10));
    assert_ne!(elsewhere.shares_mint, first.shares_mint);
}

#[test]
fn derived_address_can_be_recreated_from_its_bump() {
    let program = address(7);
    let seeds = vec![b"vault".to_vec(), vec![1, 2, 3]];
    let derived = derive_address(&seeds, &program).expect("a bump exists");
    let again = Pubkey::create_program_address(
        &[b"vault", &[1, 2, 3], &[derived.bump]],
        &key(&program),
    )
    .expect("the bump was found by search");
    assert_eq!(again.to_bytes(), derived.address.bytes);
    assert!(!again.is_on_curve());
}

#[test]
fn seeds_that_cannot_be_used_derive_nothing() {
    let program = address(7);
    let too_long = vec![vec![0u8; 33]];
    assert_eq!(derive_address(&too_long, &program), None);
    let too_many: Vec<Vec<u8>> = (0..16).map(|i| vec![i as u8]).collect();
    assert_eq!(derive_address(&too_many, &program), None);
    let most: Vec<Vec<u8>> = (0..15).map(|i| vec![i as u8]).collect();
    assert!(derive_address(&most, &program).is_some());
    assert!(derive_address(&Vec::new(), &program).is_some());
}
