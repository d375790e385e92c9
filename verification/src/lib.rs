//! Verified state-transition logic of a two-asset constant-product
//! liquidity pool: pool creation, swap pricing and settlement planning,
//! and the pool's delegated signing authority.
//!
//! The ledger runtime that executes instructions and the token-custody
//! service that moves value between accounts are external collaborators;
//! this crate holds the pool's own data model and decision logic.

pub mod ids;
pub mod error;
pub mod pool;
pub mod direction;
pub mod authority;
pub mod swap;
pub mod create;

pub use ids::AccountId;
pub use error::PoolError;
pub use pool::{LiquidityPool, TokenAccountState, FEE_RATE_DENOM};
pub use direction::TransferDirection;
