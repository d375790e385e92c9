//! The direction resolver: which canonical swap direction, if any, a
//! proposed (source, destination) asset pair falls under.

use vstd::prelude::*;
use crate::ids::AccountId;
use crate::pool::LiquidityPool;
use crate::error::PoolError;

verus! {

/// The two canonical directions of a swap on a two-asset pool.
#[derive(Clone, Copy, PartialEq, Eq, Structural, Debug)]
pub enum TransferDirection {
    /// Asset A is sold, asset B is bought.
    AtoB,
    /// Asset B is sold, asset A is bought.
    BtoA,
}

/// The direction a (source, destination) asset pair resolves to: `AtoB`
/// exactly for (A, B), `BtoA` exactly for (B, A), nothing for every other
/// pair, including equal assets and assets foreign to the pool.
pub open spec fn spec_direction(
    pool: LiquidityPool,
    source_mint: AccountId,
    dest_mint: AccountId,
) -> Option<TransferDirection> {
    if source_mint == pool.mint_a && dest_mint == pool.mint_b {
        Some(TransferDirection::AtoB)
    } else if source_mint == pool.mint_b && dest_mint == pool.mint_a {
        Some(TransferDirection::BtoA)
    } else {
        None
    }
}

impl TransferDirection {
    /// Resolves the direction of a proposed swap, rejecting every pair
    /// that matches neither canonical direction.
    pub fn new(
        pool: &LiquidityPool,
        source_mint: &AccountId,
        dest_mint: &AccountId,
    ) -> (r: Result<TransferDirection, PoolError>)
        ensures
            (match spec_direction(*pool, *source_mint, *dest_mint) {
                Some(d) => r == Ok::<TransferDirection, PoolError>(d),
                None => r == Err::<TransferDirection, PoolError>(PoolError::InvalidDirection),
            }),
    {
        if *source_mint == pool.mint_a && *dest_mint == pool.mint_b {
            Ok(TransferDirection::AtoB)
        } else if *source_mint == pool.mint_b && *dest_mint == pool.mint_a {
            Ok(TransferDirection::BtoA)
        } else {
            Err(PoolError::InvalidDirection)
        }
    }
}

} // verus!
