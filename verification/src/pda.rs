//! Deterministic address derivation.
//!
//! The external swap program locates its accounts by program-derived
//! addresses: a deterministic, collision-avoiding hash of seed byte-strings
//! and the owning program's identifier. The derivation itself (seed hashing
//! with a bump nonce and a curve-point check) is the ledger runtime's and is
//! called, not rebuilt; its result is named by the uninterpreted function
//! [`pda_of`], so every derived address below is pinned to the same seeds the
//! external program hashes on its side.
//!
//! Associated-token addresses follow the external associated-account
//! standard: the program-derived address of (owner, token program id, mint)
//! under the associated-token program's identifier.

use vstd::prelude::*;
use crate::addr::Address;
use crate::addr::ata_program_id;
use crate::addr::pump_program_id;
use crate::addr::spec_ata_program_id;
use crate::addr::spec_pump_program_id;
use crate::addr::spec_token_program_id;
use crate::addr::address_bytes;
use crate::addr::token_program_id;

verus! {

/// The address that the ledger runtime derives from these seeds for this
/// owning program, if a valid bump nonce exists: the result of
/// `Pubkey::try_find_program_address`, a deterministic function of its
/// arguments alone.
pub uninterp spec fn pda_of(seeds: Seq<Seq<u8>>, program_id: Seq<u8>) -> Option<Seq<u8>>;

/// The byte-string of each seed in a seed list.
pub open spec fn seeds_view(seeds: Seq<Vec<u8>>) -> Seq<Seq<u8>> {
    seeds.map_values(|s: Vec<u8>| s@)
}

/// Relies on solana_pubkey's `Pubkey::try_find_program_address`: the derived
/// address, and whether one exists, are a deterministic function of the seed
/// byte-strings and the owning program's identifier alone; the call returns
/// `None` (and never panics) when the seeds are refused or no bump nonce
/// yields a valid address.
#[verifier::external_body]
fn try_find_program_address(seeds: &Vec<Vec<u8>>, program_id: &Address) -> (r: Option<Address>)
    ensures
        r matches Some(a) ==> pda_of(seeds_view(seeds@), program_id@) == Some(a@),
        r is None ==> pda_of(seeds_view(seeds@), program_id@) is None,
{
    let seed_slices: Vec<&[u8]> = seeds.iter().map(|s| s.as_slice()).collect();
    let owner = solana_pubkey::Pubkey::new_from_array(program_id.0);
    match solana_pubkey::Pubkey::try_find_program_address(&seed_slices, &owner) {
        Some((address, _bump)) => Some(Address(address.to_bytes())),
        None => None,
    }
}

/// The fixed seed of the external program's global configuration account.
pub open spec fn spec_global_config_seed() -> Seq<u8> {
    seq![103u8, 108u8, 111u8, 98u8, 97u8, 108u8, 45u8, 99u8, 111u8, 110u8, 102u8, 105u8, 103u8]
}

/// The fixed seed prefix of a bonding-curve account.
pub open spec fn spec_bonding_curve_seed() -> Seq<u8> {
    seq![98u8, 111u8, 110u8, 100u8, 105u8, 110u8, 103u8, 45u8, 99u8, 117u8, 114u8, 118u8, 101u8]
}

/// The fixed seed of the global configuration account, `b"global-config"`.
pub fn global_config_seed() -> (r: Vec<u8>)
    ensures
        r@ == spec_global_config_seed(),
{
    let bytes: [u8; 13] = [103, 108, 111, 98, 97, 108, 45, 99, 111, 110, 102, 105, 103];
    let r = vstd::slice::slice_to_vec(bytes.as_slice());
    proof {
        assert(r@ =~= spec_global_config_seed());
    }
    r
}

/// The fixed seed prefix of a bonding-curve account, `b"bonding-curve"`.
pub fn bonding_curve_seed() -> (r: Vec<u8>)
    ensures
        r@ == spec_bonding_curve_seed(),
{
    let bytes: [u8; 13] = [98, 111, 110, 100, 105, 110, 103, 45, 99, 117, 114, 118, 101];
    let r = vstd::slice::slice_to_vec(bytes.as_slice());
    proof {
        assert(r@ =~= spec_bonding_curve_seed());
    }
    r
}

/// The external program's global configuration address: derived from the
/// fixed configuration seed under the external program's identifier.
pub open spec fn spec_global_config_address() -> Option<Seq<u8>> {
    pda_of(seq![spec_global_config_seed()], spec_pump_program_id())
}

/// The bonding-curve address of a token mint: derived from the fixed curve
/// seed and the mint's bytes under the external program's identifier.
pub open spec fn spec_bonding_curve_address(mint: Seq<u8>) -> Option<Seq<u8>> {
    pda_of(seq![spec_bonding_curve_seed(), mint], spec_pump_program_id())
}

/// The associated-token address of (owner, mint), per the external
/// associated-account standard's reference derivation: the program-derived
/// address of (owner, token program id, mint) under the associated-token
/// program's identifier.
pub open spec fn spec_associated_token_address(owner: Seq<u8>, mint: Seq<u8>) -> Option<Seq<u8>> {
    pda_of(seq![owner, spec_token_program_id(), mint], spec_ata_program_id())
}

/// Derives the external program's global configuration address.
pub fn derive_global_config_address() -> (r: Option<Address>)
    ensures
        r matches Some(a) ==> spec_global_config_address() == Some(a@),
        r is None ==> spec_global_config_address() is None,
{
    let mut seeds: Vec<Vec<u8>> = Vec::new();
    seeds.push(global_config_seed());
    let program = pump_program_id();
    proof {
        assert(seeds_view(seeds@) =~= seq![spec_global_config_seed()]);
    }
    try_find_program_address(&seeds, &program)
}

/// Derives the bonding-curve address of a token mint. Identical mints always
/// yield the identical address: the result is pinned to
/// [`spec_bonding_curve_address`], a pure function of the mint's bytes.
pub fn derive_bonding_curve_address(mint: &Address) -> (r: Option<Address>)
    ensures
        r matches Some(a) ==> spec_bonding_curve_address(mint@) == Some(a@),
        r is None ==> spec_bonding_curve_address(mint@) is None,
{
    let mut seeds: Vec<Vec<u8>> = Vec::new();
    seeds.push(bonding_curve_seed());
    seeds.push(address_bytes(mint));
    let program = pump_program_id();
    proof {
        assert(seeds_view(seeds@) =~= seq![spec_bonding_curve_seed(), mint@]);
    }
    try_find_program_address(&seeds, &program)
}

/// Derives the associated-token address of (owner, mint) per the external
/// standard's reference derivation.
pub fn derive_associated_token_address(owner: &Address, mint: &Address) -> (r: Option<Address>)
    ensures
        r matches Some(a) ==> spec_associated_token_address(owner@, mint@) == Some(a@),
        r is None ==> spec_associated_token_address(owner@, mint@) is None,
{
    let mut seeds: Vec<Vec<u8>> = Vec::new();
    seeds.push(address_bytes(owner));
    seeds.push(address_bytes(&token_program_id()));
    seeds.push(address_bytes(mint));
    let program = ata_program_id();
    proof {
        assert(seeds_view(seeds@) =~= seq![owner@, spec_token_program_id(), mint@]);
    }
    try_find_program_address(&seeds, &program)
}

/// The bonding-curve address is a pure function of the token mint: identical
/// mint addresses always derive the identical bonding-curve address (or
/// identically fail to derive one).
pub proof fn lemma_bonding_curve_address_deterministic(mint_a: Seq<u8>, mint_b: Seq<u8>)
    requires
        mint_a == mint_b,
    ensures
        spec_bonding_curve_address(mint_a) == spec_bonding_curve_address(mint_b),
{
}

} // verus!
