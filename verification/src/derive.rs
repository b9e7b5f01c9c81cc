//! Program-derived addresses.
//!
//! The address of a vault or share mint is not chosen by the caller: it is a
//! function of a domain tag, the identities it belongs to, and the program.
//! The function itself is Solana's; this module names its result and fixes the
//! seeds this program uses.

use crate::address::Address;
use crate::layout::Layout;
use anchor_lang::prelude::Pubkey;
use vstd::prelude::*;

verus! {

/// What `Pubkey::try_find_program_address` returns for the given seeds and program
/// address: the derived address with its bump seed, or nothing.
pub uninterp spec fn program_address(seeds: Seq<Seq<u8>>, program_id: Seq<u8>) -> Option<
    (Seq<u8>, u8),
>;

/// The seeds as byte strings.
pub open spec fn seeds_view(seeds: Seq<Vec<u8>>) -> Seq<Seq<u8>> {
    Seq::new(seeds.len(), |i: int| seeds[i]@)
}

/// A derived address and the bump seed that produced it.
#[derive(Clone, Copy, Debug, PartialEq, Eq)]
pub struct DerivedAddress {
    pub address: Address,
    pub bump: u8,
}

/// The derivation result as a value of this library.
pub open spec fn spec_derive(seeds: Seq<Seq<u8>>, program_id: Address) -> Option<DerivedAddress> {
    match program_address(seeds, program_id.bytes@) {
        Some((bytes, bump)) => Some(DerivedAddress { address: Address::spec_decode(bytes), bump }),
        None => None,
    }
}

/// Calls `Pubkey::try_find_program_address` (solana-address, re-exported by
/// anchor-lang). The contract claims only that the call is a function of its
/// arguments: the result is the named one, address for address and bump for bump.
/// The call searches bump seeds from 255 down and returns `None` rather than
/// panic when there are too many seeds, a seed is too long, or no bump works.
#[verifier::external_body]
fn try_find_program_address(seeds: &Vec<Vec<u8>>, program_id: &Address) -> (r: Option<
    (Address, u8),
>)
    ensures
        r matches Some((address, bump)) ==> program_address(seeds_view(seeds@), program_id.bytes@)
            == Some((address.bytes@, bump)),
        r is None ==> program_address(seeds_view(seeds@), program_id.bytes@) is None,
{
    let parts: Vec<&[u8]> = seeds.iter().map(|s| s.as_slice()).collect();
    let program = Pubkey::new_from_array(program_id.bytes);
    Pubkey::try_find_program_address(&parts, &program).map(
        |(key, bump)| (Address { bytes: key.to_bytes() }, bump),
    )
}

/// Derives the address for `seeds` under `program_id`.
pub fn derive_address(seeds: &Vec<Vec<u8>>, program_id: &Address) -> (r: Option<DerivedAddress>)
    ensures
        r == spec_derive(seeds_view(seeds@), *program_id),
{
    match try_find_program_address(seeds, program_id) {
        Some((address, bump)) => {
            proof {
                address.lemma_decode_encode();
            }
            Some(DerivedAddress { address, bump })
        },
        None => None,
    }
}

/// The domain tag of the first token vault: the ASCII bytes of `STRATEGY_VAULT_A_SEED`.
pub open spec fn spec_vault_a_tag() -> Seq<u8> {
    seq![
        83u8, 84, 82, 65, 84, 69, 71, 89, 95, 86, 65, 85, 76, 84, 95, 65, 95, 83, 69,
        69, 68,
    ]
}

/// The domain tag of the first token vault.
pub fn vault_a_tag() -> (tag: Vec<u8>)
    ensures
        tag@ == spec_vault_a_tag(),
{
    let tag: Vec<u8> = vec![
        83u8, 84, 82, 65, 84, 69, 71, 89, 95, 86, 65, 85, 76, 84, 95, 65, 95, 83, 69,
        69, 68,
    ];
    assert(tag@ =~= spec_vault_a_tag());
    tag
}

/// The domain tag of the second token vault: the ASCII bytes of `STRATEGY_VAULT_B_SEED`.
pub open spec fn spec_vault_b_tag() -> Seq<u8> {
    seq![
        83u8, 84, 82, 65, 84, 69, 71, 89, 95, 86, 65, 85, 76, 84, 95, 66, 95, 83, 69,
        69, 68,
    ]
}

/// The domain tag of the second token vault.
pub fn vault_b_tag() -> (tag: Vec<u8>)
    ensures
        tag@ == spec_vault_b_tag(),
{
    let tag: Vec<u8> = vec![
        83u8, 84, 82, 65, 84, 69, 71, 89, 95, 86, 65, 85, 76, 84, 95, 66, 95, 83, 69,
        69, 68,
    ];
    assert(tag@ =~= spec_vault_b_tag());
    tag
}

/// The domain tag of the share mint: the ASCII bytes of `SHARES_SEEDS`.
pub open spec fn spec_shares_tag() -> Seq<u8> {
    seq![
        83u8, 72, 65, 82, 69, 83, 95, 83, 69, 69, 68, 83,
    ]
}

/// The domain tag of the share mint.
pub fn shares_tag() -> (tag: Vec<u8>)
    ensures
        tag@ == spec_shares_tag(),
{
    let tag: Vec<u8> = vec![
        83u8, 72, 65, 82, 69, 83, 95, 83, 69, 69, 68, 83,
    ];
    assert(tag@ =~= spec_shares_tag());
    tag
}

/// The seeds of a token vault: its tag, then the strategy's address.
pub open spec fn spec_vault_seeds(tag: Seq<u8>, strategy: Address) -> Seq<Seq<u8>> {
    seq![tag, strategy.bytes@]
}

/// The seeds of the share mint: its tag, the strategy's address, then both mints.
pub open spec fn spec_shares_seeds(strategy: Address, mint_a: Address, mint_b: Address) -> Seq<
    Seq<u8>,
> {
    seq![spec_shares_tag(), strategy.bytes@, mint_a.bytes@, mint_b.bytes@]
}

/// The three addresses derived for one strategy.
#[derive(Clone, Copy, Debug, PartialEq, Eq)]
pub struct Derivations {
    pub token_a_vault: Option<DerivedAddress>,
    pub token_b_vault: Option<DerivedAddress>,
    pub shares_mint: Option<DerivedAddress>,
}

/// The addresses that belong to the strategy at `strategy` with the given mints.
pub open spec fn spec_derivations(
    strategy: Address,
    mint_a: Address,
    mint_b: Address,
    program_id: Address,
) -> Derivations {
    Derivations {
        token_a_vault: spec_derive(spec_vault_seeds(spec_vault_a_tag(), strategy), program_id),
        token_b_vault: spec_derive(spec_vault_seeds(spec_vault_b_tag(), strategy), program_id),
        shares_mint: spec_derive(spec_shares_seeds(strategy, mint_a, mint_b), program_id),
    }
}

/// Derives a token vault's address from its tag and the strategy's address.
pub fn derive_vault(tag: Vec<u8>, strategy: &Address, program_id: &Address) -> (r: Option<
    DerivedAddress,
>)
    ensures
        r == spec_derive(spec_vault_seeds(tag@, *strategy), *program_id),
{
    let mut seeds: Vec<Vec<u8>> = Vec::new();
    seeds.push(tag);
    seeds.push(strategy.to_vec());
    assert(seeds_view(seeds@) =~= spec_vault_seeds(tag@, *strategy));
    derive_address(&seeds, program_id)
}

/// Derives the share mint's address.
pub fn derive_shares_mint(
    strategy: &Address,
    mint_a: &Address,
    mint_b: &Address,
    program_id: &Address,
) -> (r: Option<DerivedAddress>)
    ensures
        r == spec_derive(spec_shares_seeds(*strategy, *mint_a, *mint_b), *program_id),
{
    let mut seeds: Vec<Vec<u8>> = Vec::new();
    seeds.push(shares_tag());
    seeds.push(strategy.to_vec());
    seeds.push(mint_a.to_vec());
    seeds.push(mint_b.to_vec());
    assert(seeds_view(seeds@) =~= spec_shares_seeds(*strategy, *mint_a, *mint_b));
    derive_address(&seeds, program_id)
}

/// Derives all three addresses of a strategy.
pub fn derive_all(
    strategy: &Address,
    mint_a: &Address,
    mint_b: &Address,
    program_id: &Address,
) -> (r: Derivations)
    ensures
        r == spec_derivations(*strategy, *mint_a, *mint_b, *program_id),
{
    Derivations {
        token_a_vault: derive_vault(vault_a_tag(), strategy, program_id),
        token_b_vault: derive_vault(vault_b_tag(), strategy, program_id),
        shares_mint: derive_shares_mint(strategy, mint_a, mint_b, program_id),
    }
}

} // verus!
