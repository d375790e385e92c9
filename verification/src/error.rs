//! Typed rejections of the pool's operations.
//!
//! Every failure of creation or swap is reported to the caller as one of
//! these variants; no operation panics, and a rejected operation leaves
//! every account it was handed unchanged.

use vstd::prelude::*;

verus! {

/// Why a pool operation was rejected.
#[derive(Clone, Copy, PartialEq, Eq, Structural, Debug)]
pub enum PoolError {
    /// The proposed (source, destination) pair matches neither canonical
    /// direction of the pool.
    InvalidDirection,
    /// A pool's two tradable asset ids must be distinct.
    SameAssetMints,
    /// A pool already exists for this owner.
    PoolAlreadyExists,
    /// Address derivation found no valid authority address for this owner.
    AuthorityUnavailable,
    /// A custodial account is not owned by the pool's delegated authority.
    CustodialOwnerMismatch,
    /// A supplied account does not hold the expected asset or does not
    /// belong to the expected owner.
    AccountMismatch,
    /// The fee would exceed the input amount (fee rate not below one).
    DegenerateFeeRate,
    /// The pool-source reserve plus the deposited amount does not fit in
    /// the reserve's numeric range.
    ReserveOverflow,
    /// Both the pool-source reserve and the deposit are zero, so the
    /// pricing quotient is undefined.
    ZeroReserves,
    /// The requested output would exceed the pool-destination reserve.
    InsufficientLiquidity,
    /// The caller's source account holds less than the input amount.
    InsufficientFunds,
    /// A receiving account's balance would not fit in its numeric range.
    BalanceOverflow,
}

} // verus!
