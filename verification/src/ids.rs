//! Account and asset identifiers.
//!
//! The ledger addresses accounts by 256-bit keys. The pool's logic only
//! compares identifiers and feeds their bytes into address derivation, so
//! an identifier is held here as four 64-bit words in little-endian order.

use vstd::prelude::*;
use vstd::bytes::{spec_u64_to_le_bytes, spec_u64_from_le_bytes, u64_to_le_bytes, u64_from_le_bytes};
use vstd::slice::slice_subrange;

verus! {

/// A 256-bit ledger identifier: an account address or an asset (mint) id,
/// stored as four little-endian 64-bit words.
#[derive(Clone, Copy, PartialEq, Eq, Structural, Debug)]
pub struct AccountId {
    pub w0: u64,
    pub w1: u64,
    pub w2: u64,
    pub w3: u64,
}

/// The 32 bytes of an identifier, word by word, each little-endian.
pub open spec fn spec_id_bytes(id: AccountId) -> Seq<u8> {
    spec_u64_to_le_bytes(id.w0) + spec_u64_to_le_bytes(id.w1)
        + spec_u64_to_le_bytes(id.w2) + spec_u64_to_le_bytes(id.w3)
}

/// The identifier whose serialized form a 32-byte string is: each 8-byte
/// chunk read as a little-endian word.
pub open spec fn spec_id_from_bytes(s: Seq<u8>) -> AccountId {
    AccountId {
        w0: spec_u64_from_le_bytes(s.subrange(0, 8)),
        w1: spec_u64_from_le_bytes(s.subrange(8, 16)),
        w2: spec_u64_from_le_bytes(s.subrange(16, 24)),
        w3: spec_u64_from_le_bytes(s.subrange(24, 32)),
    }
}

impl AccountId {
    /// Builds an identifier from its four words.
    pub fn new(w0: u64, w1: u64, w2: u64, w3: u64) -> (r: AccountId)
        ensures
            r == (AccountId { w0, w1, w2, w3 }),
    {
        AccountId { w0, w1, w2, w3 }
    }

    /// The identifier's 32-byte serialized form.
    pub fn to_bytes(&self) -> (r: Vec<u8>)
        ensures
            r@ == spec_id_bytes(*self),
            r@.len() == 32,
    {
        let mut r = u64_to_le_bytes(self.w0);
        let mut b1 = u64_to_le_bytes(self.w1);
        let mut b2 = u64_to_le_bytes(self.w2);
        let mut b3 = u64_to_le_bytes(self.w3);
        r.append(&mut b1);
        r.append(&mut b2);
        r.append(&mut b3);
        proof {
            vstd::bytes::lemma_auto_spec_u64_to_from_le_bytes();
        }
        r
    }

    /// Reads an identifier back from its 32-byte serialized form.
    pub fn from_bytes(b: &Vec<u8>) -> (r: AccountId)
        requires
            b@.len() == 32,
        ensures
            r == spec_id_from_bytes(b@),
    {
        let s = b.as_slice();
        let w0: u64 = u64_from_le_bytes(slice_subrange(s, 0, 8));
        let w1: u64 = u64_from_le_bytes(slice_subrange(s, 8, 16));
        let w2: u64 = u64_from_le_bytes(slice_subrange(s, 16, 24));
        let w3: u64 = u64_from_le_bytes(slice_subrange(s, 24, 32));
        AccountId { w0, w1, w2, w3 }
    }
}

} // verus!
