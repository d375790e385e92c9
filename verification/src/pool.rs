//! The persistent pool record and the model of a token-holding account.

use vstd::prelude::*;
use crate::ids::AccountId;

verus! {

/// Fee rates are fractions with this fixed denominator, so a rate of 100
/// stands for one percent. A well-formed pool's rate is below the
/// denominator, keeping the fraction in [0, 1).
pub const FEE_RATE_DENOM: u64 = 10000;

/// What the pool's logic reads of a token-holding account: its address,
/// the asset it holds, the account that owns it, and its balance.
#[derive(Clone, Copy, PartialEq, Eq, Structural, Debug)]
pub struct TokenAccountState {
    /// Address of the holding account itself.
    pub id: AccountId,
    /// Asset (mint) the account holds units of.
    pub mint: AccountId,
    /// Account authorized to move value out of this one.
    pub owner: AccountId,
    /// Units of the asset currently held.
    pub balance: u64,
}

/// The persistent record of one two-asset pool.
#[derive(Clone, Copy, PartialEq, Eq, Structural, Debug)]
pub struct LiquidityPool {
    /// Account that created the pool and administratively controls it.
    pub owner: AccountId,
    /// Asset representing pool ownership shares; unused by the swap engine.
    pub mint_pool: AccountId,
    /// First tradable asset.
    pub mint_a: AccountId,
    /// Second tradable asset; distinct from `mint_a`.
    pub mint_b: AccountId,
    /// Custodial account holding pool-share assets.
    pub ata_pool: AccountId,
    /// Custodial account holding the reserve of asset A.
    pub ata_a: AccountId,
    /// Custodial account holding the reserve of asset B.
    pub ata_b: AccountId,
    /// The pool's delegated signing authority, derived from the owner's
    /// identity and a fixed label and cached here at creation.
    pub authority: AccountId,
    /// Disambiguation nonce of the authority derivation, persisted so the
    /// derivation never has to be searched again.
    pub bump: u8,
    /// Account designated to receive fee proceeds, if fees are collected.
    pub fee_account: Option<AccountId>,
    /// Fraction of the swap input taken as a fee, in units of
    /// 1 / `FEE_RATE_DENOM`.
    pub fee_rate: u64,
    /// Cached product of the two custodial reserves at the last known
    /// consistent state; the pricing invariant of the constant-product rule.
    pub invariant: u128,
}

impl LiquidityPool {
    /// Structural well-formedness: the two tradable assets are distinct
    /// and the fee fraction lies in [0, 1).
    pub open spec fn wf(self) -> bool {
        &&& self.mint_a != self.mint_b
        &&& self.fee_rate < FEE_RATE_DENOM
    }

    /// Size in bytes of the serialized record: eight 32-byte identifiers,
    /// the one-byte bump, the fee account behind a one-byte presence tag,
    /// the 8-byte fee rate and the 16-byte invariant. The type
    /// discriminator tag that prefixes the record on disk is not included.
    pub fn get_size() -> (r: usize)
        ensures
            r == 314,
    {
        32 * 8 + 1 + (1 + 32) + 8 + 16
    }
}

} // verus!
