//! Pool initialization: building and persisting a new pool record.
//!
//! A pool is created at most once per owner. Its custodial accounts must
//! already be owned by the owner's derived authority and hold the
//! registered assets; the pricing invariant is the product of the two
//! custodial balances at the moment of creation. Creation moves no value.

use vstd::prelude::*;
use vstd::arithmetic::mul::lemma_mul_upper_bound;
use crate::ids::AccountId;
use crate::pool::{LiquidityPool, TokenAccountState, FEE_RATE_DENOM};
use crate::error::PoolError;
use crate::authority::spec_derive_authority;
use crate::authority::derive_authority;

verus! {

/// The accounts pool creation reads: the owner (the authenticated
/// caller) and the three custodial accounts the new pool will register.
#[derive(Clone, Copy, PartialEq, Eq, Debug)]
pub struct CreateSolarpool {
    pub owner: AccountId,
    pub ata_pool: TokenAccountState,
    pub ata_a: TokenAccountState,
    pub ata_b: TokenAccountState,
}

/// The persistent store of pool records, at most one per owner. The host
/// ledger provides the storage; this model provides its one rule.
#[derive(Clone, PartialEq, Eq, Debug)]
pub struct PoolRegistry {
    pub pools: Vec<LiquidityPool>,
}

impl PoolRegistry {
    /// At most one pool per owner, and every record well-formed.
    pub open spec fn wf(self) -> bool {
        &&& forall|i: int, j: int|
            0 <= i < j < self.pools@.len() ==> #[trigger] self.pools@[i].owner != #[trigger] self.pools@[j].owner
        &&& forall|i: int| 0 <= i < self.pools@.len() ==> (#[trigger] self.pools@[i]).wf()
    }

    /// Whether some pool in the registry belongs to `owner`.
    pub open spec fn spec_has_pool(self, owner: AccountId) -> bool {
        exists|i: int| 0 <= i < self.pools@.len() && (#[trigger] self.pools@[i]).owner == owner
    }

    /// An empty registry.
    pub fn new() -> (r: PoolRegistry)
        ensures
            r.pools@ =~= Seq::<LiquidityPool>::empty(),
            r.wf(),
    {
        PoolRegistry { pools: Vec::new() }
    }

    /// Whether a pool already exists for `owner`.
    pub fn has_pool(&self, owner: &AccountId) -> (r: bool)
        ensures
            r == self.spec_has_pool(*owner),
    {
        let mut i: usize = 0;
        while i < self.pools.len()
            invariant
                i <= self.pools@.len(),
                forall|k: int| 0 <= k < i ==> (#[trigger] self.pools@[k]).owner != *owner,
            decreases self.pools@.len() - i,
        {
            if self.pools[i].owner == *owner {
                return true;
            }
            i += 1;
        }
        false
    }

    /// The pool belonging to `owner`, if one exists.
    pub fn pool_for(&self, owner: &AccountId) -> (r: Option<LiquidityPool>)
        ensures
            r is Some <==> self.spec_has_pool(*owner),
            (match r {
                Some(p) => p.owner == *owner && self.pools@.contains(p),
                None => true,
            }),
    {
        let mut i: usize = 0;
        while i < self.pools.len()
            invariant
                i <= self.pools@.len(),
                forall|k: int| 0 <= k < i ==> (#[trigger] self.pools@[k]).owner != *owner,
            decreases self.pools@.len() - i,
        {
            if self.pools[i].owner == *owner {
                return Some(self.pools[i]);
            }
            i += 1;
        }
        None
    }
}

/// What creation answers for the given arguments: the new pool record, or
/// the exact rejection, checked in this order: equal tradable assets, a
/// fee fraction not below one, no derivable authority for this owner,
/// a custodial account not owned by that authority, a custodial account
/// holding the wrong asset, and a pool already recorded for this owner.
pub open spec fn spec_create_pool(
    registry: PoolRegistry,
    accounts: CreateSolarpool,
    mint_pool: AccountId,
    mint_a: AccountId,
    mint_b: AccountId,
    fee_account: Option<AccountId>,
    fee_rate: u64,
) -> Result<LiquidityPool, PoolError> {
    if mint_a == mint_b {
        Err(PoolError::SameAssetMints)
    } else if fee_rate >= FEE_RATE_DENOM {
        Err(PoolError::DegenerateFeeRate)
    } else {
        match spec_derive_authority(accounts.owner) {
            None => Err(PoolError::AuthorityUnavailable),
            Some((authority, bump)) => {
                if !(accounts.ata_pool.owner == authority && accounts.ata_a.owner == authority
                    && accounts.ata_b.owner == authority) {
                    Err(PoolError::CustodialOwnerMismatch)
                } else if !(accounts.ata_pool.mint == mint_pool && accounts.ata_a.mint == mint_a
                    && accounts.ata_b.mint == mint_b) {
                    Err(PoolError::AccountMismatch)
                } else if registry.spec_has_pool(accounts.owner) {
                    Err(PoolError::PoolAlreadyExists)
                } else {
                    Ok(
                        LiquidityPool {
                            owner: accounts.owner,
                            mint_pool,
                            mint_a,
                            mint_b,
                            ata_pool: accounts.ata_pool.id,
                            ata_a: accounts.ata_a.id,
                            ata_b: accounts.ata_b.id,
                            authority,
                            bump,
                            fee_account,
                            fee_rate,
                            invariant: (accounts.ata_a.balance * accounts.ata_b.balance) as u128,
                        },
                    )
                }
            },
        }
    }
}

/// Creates the pool owned by the authenticated caller and records it in
/// the registry.
///
/// On success the returned record is also the one appended to the
/// registry: its invariant is the product of the custodial A and B
/// balances, its authority and bump are the owner's derivation, and it is
/// well-formed. On every rejection the registry is unchanged. Creation
/// never moves value; the reserves are funded by separate transfers.
pub fn create_solarpool(
    registry: &mut PoolRegistry,
    accounts: &CreateSolarpool,
    mint_pool: AccountId,
    mint_a: AccountId,
    mint_b: AccountId,
    fee_account: Option<AccountId>,
    fee_rate: u64,
) -> (r: Result<LiquidityPool, PoolError>)
    requires
        old(registry).wf(),
    ensures
        r == spec_create_pool(
            *old(registry),
            *accounts,
            mint_pool,
            mint_a,
            mint_b,
            fee_account,
            fee_rate,
        ),
        (match r {
            Ok(pool) => final(registry).pools@ == old(registry).pools@.push(pool) && pool.wf(),
            Err(_) => *final(registry) == *old(registry),
        }),
        final(registry).wf(),
{
    if mint_a == mint_b {
        return Err(PoolError::SameAssetMints);
    }
    if fee_rate >= FEE_RATE_DENOM {
        return Err(PoolError::DegenerateFeeRate);
    }
    let (authority, bump) = match derive_authority(&accounts.owner) {
        Some(ab) => ab,
        None => {
            return Err(PoolError::AuthorityUnavailable);
        },
    };
    if !(accounts.ata_pool.owner == authority && accounts.ata_a.owner == authority
        && accounts.ata_b.owner == authority) {
        return Err(PoolError::CustodialOwnerMismatch);
    }
    if !(accounts.ata_pool.mint == mint_pool && accounts.ata_a.mint == mint_a
        && accounts.ata_b.mint == mint_b) {
        return Err(PoolError::AccountMismatch);
    }
    if registry.has_pool(&accounts.owner) {
        return Err(PoolError::PoolAlreadyExists);
    }
    proof {
        lemma_mul_upper_bound(
            accounts.ata_a.balance as int,
            u64::MAX as int,
            accounts.ata_b.balance as int,
            u64::MAX as int,
        );
    }
    let invariant_value: u128 = (accounts.ata_a.balance as u128) * (accounts.ata_b.balance
        as u128);
    let pool = LiquidityPool {
        owner: accounts.owner,
        mint_pool,
        mint_a,
        mint_b,
        ata_pool: accounts.ata_pool.id,
        ata_a: accounts.ata_a.id,
        ata_b: accounts.ata_b.id,
        authority,
        bump,
        fee_account,
        fee_rate,
        invariant: invariant_value,
    };
    registry.pools.push(pool);
    proof {
        let pools = registry.pools@;
        let n = pools.len() - 1;
        assert forall|i: int, j: int| 0 <= i < j < pools.len() implies #[trigger] pools[i].owner
            != #[trigger] pools[j].owner by {
            if j < n {
                assert(old(registry).pools@[i].owner != old(registry).pools@[j].owner);
            } else {
                assert(!old(registry).spec_has_pool(accounts.owner));
                assert(old(registry).pools@[i].owner != pool.owner);
            }
        }
    }
    Ok(pool)
}

} // verus!
