//! Delegated authority: the pool's keyless signing identity.
//!
//! The authority address is fully determined by a fixed label, the pool
//! owner's identity, and the program's own identity, through the ledger's
//! one-way address-derivation scheme. It is derived once at pool creation
//! together with a small disambiguation nonce (the "bump"), both cached in
//! the pool record; later authorization checks re-derive and compare.

use vstd::prelude::*;
use crate::ids::{AccountId, spec_id_bytes, spec_id_from_bytes};
use crate::pool::LiquidityPool;

verus! {

/// What the ledger's address-derivation scheme returns for the given seed
/// byte strings and 32-byte program id: the derived 32-byte address and
/// its bump nonce, or nothing when no candidate nonce yields a valid
/// off-curve address. The result is a function of the arguments alone.
pub uninterp spec fn derived_address_of(seeds: Seq<Seq<u8>>, program_id: Seq<u8>) -> Option<
    (Seq<u8>, u8),
>;

/// Relies on `anchor_lang::prelude::Pubkey::try_find_program_address`: a
/// deterministic, hash-based search over bump candidates that either finds
/// a valid derived address (always 32 bytes) or reports that none exists;
/// it never panics.
#[verifier::external_body]
fn try_find_derived_address(seeds: &Vec<Vec<u8>>, program_id: &Vec<u8>) -> (r: Option<
    (Vec<u8>, u8),
>)
    requires
        program_id@.len() == 32,
    ensures
        (match r {
            Some((addr, bump)) => derived_address_of(seeds.deep_view(), program_id@)
                == Some((addr@, bump)) && addr@.len() == 32,
            None => derived_address_of(seeds.deep_view(), program_id@) is None,
        }),
{
    let seed_refs: Vec<&[u8]> = seeds.iter().map(|s| s.as_slice()).collect();
    let mut pid = [0u8; 32];
    pid.copy_from_slice(program_id.as_slice());
    let pid = anchor_lang::prelude::Pubkey::new_from_array(pid);
    anchor_lang::prelude::Pubkey::try_find_program_address(&seed_refs, &pid)
        .map(|(addr, bump)| (addr.to_bytes().to_vec(), bump))
}

/// The fixed label that, together with an owner identity, seeds the
/// derivation of a pool's authority address.
pub open spec fn spec_authority_label() -> Seq<u8> {
    seq![115u8, 111u8, 108u8, 97u8, 114u8, 112u8, 111u8, 111u8, 108u8]
}

/// The bytes of the label "solarpool".
pub fn authority_label() -> (r: Vec<u8>)
    ensures
        r@ == spec_authority_label(),
{
    let mut r: Vec<u8> = Vec::new();
    r.push(115u8);
    r.push(111u8);
    r.push(108u8);
    r.push(97u8);
    r.push(114u8);
    r.push(112u8);
    r.push(111u8);
    r.push(111u8);
    r.push(108u8);
    proof {
        assert(r@ =~= spec_authority_label());
    }
    r
}

/// The identity under which pool addresses and authorities are derived.
pub open spec fn spec_program_id() -> AccountId {
    AccountId { w0: 0x6c6f6f7072616c6f, w1: 0x315972695a524c31, w2: 0x724b4d78444b4772, w3: 0x6a72694837694d31 }
}

/// The program's own identity.
pub fn program_id() -> (r: AccountId)
    ensures
        r == spec_program_id(),
{
    AccountId {
        w0: 0x6c6f6f7072616c6f,
        w1: 0x315972695a524c31,
        w2: 0x724b4d78444b4772,
        w3: 0x6a72694837694d31,
    }
}

/// The seed strings of an owner's authority derivation: the fixed label,
/// then the owner's identity bytes.
pub open spec fn spec_authority_seeds(owner: AccountId) -> Seq<Seq<u8>> {
    seq![spec_authority_label(), spec_id_bytes(owner)]
}

/// The authority address and bump an owner's pool derives to, if any.
pub open spec fn spec_derive_authority(owner: AccountId) -> Option<(AccountId, u8)> {
    match derived_address_of(spec_authority_seeds(owner), spec_id_bytes(spec_program_id())) {
        Some((addr, bump)) => Some((spec_id_from_bytes(addr), bump)),
        None => None,
    }
}

/// Derives the delegated signing authority of the pool owned by `owner`,
/// together with its bump nonce. Returns nothing only when the derivation
/// scheme has no valid address for this owner.
pub fn derive_authority(owner: &AccountId) -> (r: Option<(AccountId, u8)>)
    ensures
        r == spec_derive_authority(*owner),
{
    let label = authority_label();
    let owner_bytes = owner.to_bytes();
    let mut seeds: Vec<Vec<u8>> = Vec::new();
    seeds.push(label);
    seeds.push(owner_bytes);
    let pid = program_id().to_bytes();
    proof {
        assert(seeds.deep_view() =~~= spec_authority_seeds(*owner));
    }
    match try_find_derived_address(&seeds, &pid) {
        Some((addr, bump)) => Some((AccountId::from_bytes(&addr), bump)),
        None => None,
    }
}

/// An authorization check in the derive-and-compare style: whether the
/// authority and bump cached in the pool record are exactly what the
/// pool owner's identity derives to.
pub fn verify_pool_authority(pool: &LiquidityPool) -> (r: bool)
    ensures
        r <==> spec_derive_authority(pool.owner) == Some((pool.authority, pool.bump)),
{
    match derive_authority(&pool.owner) {
        Some((addr, bump)) => addr == pool.authority && bump == pool.bump,
        None => false,
    }
}

} // verus!
