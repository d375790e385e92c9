//! The swap settlement engine.
//!
//! A swap prices an input amount against the pool's cached
//! constant-product invariant, then settles through three ordered value
//! transfers: the fee leg (caller to fee account), the deposit leg
//! (caller to pool custody) and the payout leg (pool custody to caller,
//! authorized by the pool's delegated authority, not the caller).
//! `plan_swap` validates a request and computes the settlement; `swap`
//! additionally applies the legs to the supplied account states, all or
//! nothing. The host runtime that executes the real transfers provides
//! the same all-or-nothing guarantee for the on-ledger balances.

use vstd::prelude::*;
use vstd::arithmetic::div_mod::{lemma_fundamental_div_mod, lemma_mod_bound};
use vstd::arithmetic::mul::{lemma_mul_is_distributive_add, lemma_mul_upper_bound};
use crate::ids::AccountId;
use crate::pool::{LiquidityPool, TokenAccountState, FEE_RATE_DENOM};
use crate::direction::{TransferDirection, spec_direction};
use crate::error::PoolError;

verus! {

/// One value transfer of the settlement: `amount` units out of `from`
/// into `to`, authorized by `authority`.
#[derive(Clone, Copy, PartialEq, Eq, Structural, Debug)]
pub struct TransferLeg {
    pub from: AccountId,
    pub to: AccountId,
    pub amount: u64,
    pub authority: AccountId,
}

/// The accounts a swap touches: the two custodial accounts playing
/// pool-source and pool-destination for the resolved direction, the
/// caller's source and destination accounts, the fee-collection account
/// where one is configured, and the caller's identity.
#[derive(Clone, Copy, PartialEq, Eq, Debug)]
pub struct Swap {
    pub pool_ata_source: TokenAccountState,
    pub pool_ata_destination: TokenAccountState,
    pub ata_source: TokenAccountState,
    pub ata_destination: TokenAccountState,
    pub fee_account: Option<TokenAccountState>,
    pub user: AccountId,
}

/// A fully priced swap: the resolved direction, the three amounts, and
/// the transfer legs in their settlement order. The fee leg is present
/// exactly when the pool collects fees and the fee is positive.
#[derive(Clone, Copy, PartialEq, Eq, Debug)]
pub struct Settlement {
    pub direction: TransferDirection,
    pub fee: u64,
    pub send_amount: u64,
    pub receive_amount: u64,
    pub fee_leg: Option<TransferLeg>,
    pub deposit_leg: TransferLeg,
    pub payout_leg: TransferLeg,
}

/// The fee on `amount` at `fee_rate` parts per `FEE_RATE_DENOM`, rounded
/// half away from zero.
pub open spec fn spec_fee(amount: u64, fee_rate: u64) -> int {
    (amount * fee_rate + FEE_RATE_DENOM / 2) / (FEE_RATE_DENOM as int)
}

/// Whether a settlement carries a fee leg: the pool has a fee account
/// configured and the fee is positive.
pub open spec fn spec_fee_leg(pool: LiquidityPool, fee: int) -> bool {
    pool.fee_account is Some && fee > 0
}

/// The asset sold to the pool in direction `d`.
pub open spec fn spec_source_mint(pool: LiquidityPool, d: TransferDirection) -> AccountId {
    match d {
        TransferDirection::AtoB => pool.mint_a,
        TransferDirection::BtoA => pool.mint_b,
    }
}

/// The asset bought from the pool in direction `d`.
pub open spec fn spec_dest_mint(pool: LiquidityPool, d: TransferDirection) -> AccountId {
    match d {
        TransferDirection::AtoB => pool.mint_b,
        TransferDirection::BtoA => pool.mint_a,
    }
}

/// The custodial account that plays pool-source in direction `d`.
pub open spec fn spec_pool_source_ata(pool: LiquidityPool, d: TransferDirection) -> AccountId {
    match d {
        TransferDirection::AtoB => pool.ata_a,
        TransferDirection::BtoA => pool.ata_b,
    }
}

/// The custodial account that plays pool-destination in direction `d`.
pub open spec fn spec_pool_dest_ata(pool: LiquidityPool, d: TransferDirection) -> AccountId {
    match d {
        TransferDirection::AtoB => pool.ata_b,
        TransferDirection::BtoA => pool.ata_a,
    }
}

/// The ownership and asset checks that must hold of every participating
/// account before any transfer executes: the two custodial accounts are
/// the registered ones for direction `d`, hold the right assets and are
/// owned by the pool's delegated authority; the caller's accounts hold
/// the right assets and belong to the caller; and when a fee leg will
/// run, the supplied fee account is the configured one and holds the
/// sold asset.
pub open spec fn spec_accounts_match(
    pool: LiquidityPool,
    accounts: Swap,
    d: TransferDirection,
    fee: int,
) -> bool {
    &&& accounts.pool_ata_source.id == spec_pool_source_ata(pool, d)
    &&& accounts.pool_ata_source.mint == spec_source_mint(pool, d)
    &&& accounts.pool_ata_source.owner == pool.authority
    &&& accounts.pool_ata_destination.id == spec_pool_dest_ata(pool, d)
    &&& accounts.pool_ata_destination.mint == spec_dest_mint(pool, d)
    &&& accounts.pool_ata_destination.owner == pool.authority
    &&& accounts.ata_source.mint == spec_source_mint(pool, d)
    &&& accounts.ata_source.owner == accounts.user
    &&& accounts.ata_destination.mint == spec_dest_mint(pool, d)
    &&& accounts.ata_destination.owner == accounts.user
    &&& (spec_fee_leg(pool, fee) ==> (match (pool.fee_account, accounts.fee_account) {
        (Some(fid), Some(facct)) => facct.id == fid && facct.mint == spec_source_mint(pool, d),
        _ => false,
    }))
}

/// What a swap request prices to: the settlement, or the exact rejection,
/// checks in this order: direction, degenerate fee, account ownership and
/// asset match, reserve-range overflow, undefined (zero) pricing
/// denominator, insufficient pool liquidity. The receive amount is
/// `pool_destination.balance - invariant / (pool_source.balance + send)`
/// with floor division, the constant-product rule.
pub open spec fn spec_plan_swap(pool: LiquidityPool, accounts: Swap, amount: u64) -> Result<
    Settlement,
    PoolError,
> {
    match spec_direction(pool, accounts.ata_source.mint, accounts.ata_destination.mint) {
        None => Err(PoolError::InvalidDirection),
        Some(d) => {
            let fee = spec_fee(amount, pool.fee_rate);
            if fee > amount {
                Err(PoolError::DegenerateFeeRate)
            } else if !spec_accounts_match(pool, accounts, d, fee) {
                Err(PoolError::AccountMismatch)
            } else {
                let send = amount - fee;
                let sum = accounts.pool_ata_source.balance + send;
                if sum > u64::MAX {
                    Err(PoolError::ReserveOverflow)
                } else if sum == 0 {
                    Err(PoolError::ZeroReserves)
                } else {
                    let q = pool.invariant as int / sum;
                    if q > accounts.pool_ata_destination.balance {
                        Err(PoolError::InsufficientLiquidity)
                    } else {
                        Ok(
                            Settlement {
                                direction: d,
                                fee: fee as u64,
                                send_amount: send as u64,
                                receive_amount: (accounts.pool_ata_destination.balance - q) as u64,
                                fee_leg: match pool.fee_account {
                                    Some(fid) => if fee > 0 {
                                        Some(
                                            TransferLeg {
                                                from: accounts.ata_source.id,
                                                to: fid,
                                                amount: fee as u64,
                                                authority: accounts.user,
                                            },
                                        )
                                    } else {
                                        None
                                    },
                                    None => None,
                                },
                                deposit_leg: TransferLeg {
                                    from: accounts.ata_source.id,
                                    to: accounts.pool_ata_source.id,
                                    amount: send as u64,
                                    authority: accounts.user,
                                },
                                payout_leg: TransferLeg {
                                    from: accounts.pool_ata_destination.id,
                                    to: accounts.ata_destination.id,
                                    amount: (accounts.pool_ata_destination.balance - q) as u64,
                                    authority: pool.authority,
                                },
                            },
                        )
                    }
                }
            }
        },
    }
}

/// Floor division pins the quotient within one multiple of the divisor.
pub proof fn lemma_div_bound(x: int, d: int)
    requires
        x >= 0,
        d > 0,
    ensures
        d * (x / d) <= x < d * (x / d + 1),
{
    lemma_fundamental_div_mod(x, d);
    lemma_mod_bound(x, d);
    lemma_mul_is_distributive_add(d, x / d, 1);
}

/// Prices a swap of `amount` units of the caller's source asset against
/// the pool, without touching any balance.
///
/// Rejections, in check order and exactly when their condition holds:
/// `InvalidDirection` when the caller's source and destination assets are
/// neither (A, B) nor (B, A); `DegenerateFeeRate` when the rounded fee
/// would exceed the input; `AccountMismatch` when any participating
/// account fails its ownership or asset check; `ReserveOverflow` when the
/// pool-source reserve plus the deposit leaves the reserve range;
/// `ZeroReserves` when that sum is zero, leaving the price undefined;
/// `InsufficientLiquidity` when the quotient exceeds the pool-destination
/// reserve.
pub fn plan_swap(pool: &LiquidityPool, accounts: &Swap, amount: u64) -> (r: Result<
    Settlement,
    PoolError,
>)
    ensures
        r == spec_plan_swap(*pool, *accounts, amount),
        r matches Ok(s) ==> s.fee == spec_fee(amount, pool.fee_rate) && s.fee + s.send_amount
            == amount,
        r matches Ok(s) ==> spec_accounts_match(*pool, *accounts, s.direction, s.fee as int),
        r matches Ok(s) ==> accounts.pool_ata_source.balance + s.send_amount <= u64::MAX,
        r matches Ok(s) ==> s.receive_amount <= accounts.pool_ata_destination.balance,
        r matches Ok(s) ==> (accounts.pool_ata_source.balance + s.send_amount) * (
        accounts.pool_ata_destination.balance - s.receive_amount) <= pool.invariant < (
        accounts.pool_ata_source.balance + s.send_amount) * (
        accounts.pool_ata_destination.balance - s.receive_amount + 1),
        pool.fee_rate == 0 ==> (r matches Ok(s) ==> (accounts.pool_ata_source.balance + amount) * (
        accounts.pool_ata_destination.balance - s.receive_amount) <= pool.invariant < (
        accounts.pool_ata_source.balance + amount) * (
        accounts.pool_ata_destination.balance - s.receive_amount + 1)),
{
    let d = match TransferDirection::new(pool, &accounts.ata_source.mint, &accounts.ata_destination.mint) {
        Ok(d) => d,
        Err(e) => {
            return Err(e);
        },
    };
    proof {
        lemma_mul_upper_bound(amount as int, u64::MAX as int, pool.fee_rate as int, u64::MAX as int);
    }
    let prod: u128 = (amount as u128) * (pool.fee_rate as u128);
    let fee_wide: u128 = (prod + (FEE_RATE_DENOM / 2) as u128) / (FEE_RATE_DENOM as u128);
    if fee_wide > amount as u128 {
        return Err(PoolError::DegenerateFeeRate);
    }
    let fee: u64 = fee_wide as u64;
    let source_mint = match d {
        TransferDirection::AtoB => pool.mint_a,
        TransferDirection::BtoA => pool.mint_b,
    };
    let dest_mint = match d {
        TransferDirection::AtoB => pool.mint_b,
        TransferDirection::BtoA => pool.mint_a,
    };
    let pool_source_ata = match d {
        TransferDirection::AtoB => pool.ata_a,
        TransferDirection::BtoA => pool.ata_b,
    };
    let pool_dest_ata = match d {
        TransferDirection::AtoB => pool.ata_b,
        TransferDirection::BtoA => pool.ata_a,
    };
    let fee_account_ok: bool = match (&pool.fee_account, &accounts.fee_account) {
        (Some(fid), Some(facct)) => facct.id == *fid && facct.mint == source_mint,
        (Some(_), None) => false,
        (None, _) => true,
    };
    let matches_ok: bool = accounts.pool_ata_source.id == pool_source_ata
        && accounts.pool_ata_source.mint == source_mint
        && accounts.pool_ata_source.owner == pool.authority
        && accounts.pool_ata_destination.id == pool_dest_ata
        && accounts.pool_ata_destination.mint == dest_mint
        && accounts.pool_ata_destination.owner == pool.authority
        && accounts.ata_source.mint == source_mint
        && accounts.ata_source.owner == accounts.user
        && accounts.ata_destination.mint == dest_mint
        && accounts.ata_destination.owner == accounts.user
        && (!(pool.fee_account.is_some() && fee > 0) || fee_account_ok);
    if !matches_ok {
        return Err(PoolError::AccountMismatch);
    }
    let send: u64 = amount - fee;
    if accounts.pool_ata_source.balance > u64::MAX - send {
        return Err(PoolError::ReserveOverflow);
    }
    let sum: u64 = accounts.pool_ata_source.balance + send;
    if sum == 0 {
        return Err(PoolError::ZeroReserves);
    }
    let q_wide: u128 = pool.invariant / (sum as u128);
    if q_wide > accounts.pool_ata_destination.balance as u128 {
        return Err(PoolError::InsufficientLiquidity);
    }
    let q: u64 = q_wide as u64;
    let receive: u64 = accounts.pool_ata_destination.balance - q;
    proof {
        lemma_div_bound(pool.invariant as int, sum as int);
    }
    let fee_leg: Option<TransferLeg> = match &pool.fee_account {
        Some(fid) => if fee > 0 {
            Some(
                TransferLeg {
                    from: accounts.ata_source.id,
                    to: *fid,
                    amount: fee,
                    authority: accounts.user,
                },
            )
        } else {
            None
        },
        None => None,
    };
    Ok(
        Settlement {
            direction: d,
            fee,
            send_amount: send,
            receive_amount: receive,
            fee_leg,
            deposit_leg: TransferLeg {
                from: accounts.ata_source.id,
                to: accounts.pool_ata_source.id,
                amount: send,
                authority: accounts.user,
            },
            payout_leg: TransferLeg {
                from: accounts.pool_ata_destination.id,
                to: accounts.ata_destination.id,
                amount: receive,
                authority: pool.authority,
            },
        },
    )
}

/// What the caller's source account pays out in total: input amount when
/// a fee leg runs (fee plus deposit), the deposit alone otherwise.
pub open spec fn spec_paid(pool: LiquidityPool, s: Settlement) -> int {
    if spec_fee_leg(pool, s.fee as int) {
        s.fee + s.send_amount
    } else {
        s.send_amount as int
    }
}

/// Whether both receiving accounts can absorb their legs without leaving
/// the balance range: the fee account (when a fee leg runs) and the
/// caller's destination account.
pub open spec fn spec_receivers_fit(accounts: Swap, pool: LiquidityPool, s: Settlement) -> bool {
    &&& (spec_fee_leg(pool, s.fee as int) ==> (match accounts.fee_account {
        Some(facct) => facct.balance + s.fee <= u64::MAX,
        None => true,
    }))
    &&& accounts.ata_destination.balance + s.receive_amount <= u64::MAX
}

/// The account states after the settlement's legs are applied: the
/// caller's source account pays the fee and the deposit, the pool-source
/// custody gains the deposit, the pool-destination custody pays the
/// payout, the caller's destination account gains it, and the fee account
/// gains the fee when a fee leg runs. No identity, ownership or asset
/// field changes.
pub open spec fn spec_apply_settlement(accounts: Swap, pool: LiquidityPool, s: Settlement) -> Swap {
    Swap {
        pool_ata_source: TokenAccountState {
            balance: (accounts.pool_ata_source.balance + s.send_amount) as u64,
            ..accounts.pool_ata_source
        },
        pool_ata_destination: TokenAccountState {
            balance: (accounts.pool_ata_destination.balance - s.receive_amount) as u64,
            ..accounts.pool_ata_destination
        },
        ata_source: TokenAccountState {
            balance: (accounts.ata_source.balance - spec_paid(pool, s)) as u64,
            ..accounts.ata_source
        },
        ata_destination: TokenAccountState {
            balance: (accounts.ata_destination.balance + s.receive_amount) as u64,
            ..accounts.ata_destination
        },
        fee_account: if spec_fee_leg(pool, s.fee as int) {
            match accounts.fee_account {
                Some(facct) => Some(
                    TokenAccountState { balance: (facct.balance + s.fee) as u64, ..facct },
                ),
                None => None,
            }
        } else {
            accounts.fee_account
        },
        user: accounts.user,
    }
}

/// Units of the sold asset sitting in the fee account, zero when no fee
/// account is supplied.
pub open spec fn spec_fee_holdings(accounts: Swap) -> int {
    match accounts.fee_account {
        Some(facct) => facct.balance as int,
        None => 0,
    }
}

/// Applying a settlement moves value and never creates or destroys it:
/// the sold asset's total over the caller's source account, the
/// pool-source custody and the fee account is unchanged, and so is the
/// bought asset's total over the pool-destination custody and the
/// caller's destination account.
pub proof fn lemma_settlement_conserves_value(
    accounts: Swap,
    pool: LiquidityPool,
    s: Settlement,
)
    requires
        accounts.ata_source.balance >= spec_paid(pool, s),
        accounts.pool_ata_source.balance + s.send_amount <= u64::MAX,
        accounts.pool_ata_destination.balance >= s.receive_amount,
        spec_receivers_fit(accounts, pool, s),
        spec_fee_leg(pool, s.fee as int) ==> accounts.fee_account is Some,
    ensures
        ({
            let after = spec_apply_settlement(accounts, pool, s);
            &&& after.ata_source.balance + after.pool_ata_source.balance + spec_fee_holdings(
                after,
            ) == accounts.ata_source.balance + accounts.pool_ata_source.balance
                + spec_fee_holdings(accounts)
            &&& after.pool_ata_destination.balance + after.ata_destination.balance
                == accounts.pool_ata_destination.balance + accounts.ata_destination.balance
        }),
{
}

/// Settles a swap of `amount` units of the caller's source asset: prices
/// it as `plan_swap` does, then applies the fee, deposit and payout legs
/// to the supplied account states and returns the receive amount.
///
/// On every rejection the accounts are returned unchanged: a swap either
/// applies all of its legs or none. Beyond `plan_swap`'s rejections,
/// `InsufficientFunds` rejects a caller whose source account cannot cover
/// its total payment, and `BalanceOverflow` a receiving account whose
/// balance would leave the numeric range; both model the external
/// transfer primitive refusing the corresponding leg.
pub fn swap(pool: &LiquidityPool, accounts: &mut Swap, amount: u64) -> (r: Result<u64, PoolError>)
    ensures
        (match spec_plan_swap(*pool, *old(accounts), amount) {
            Err(e) => r == Err::<u64, PoolError>(e) && *final(accounts) == *old(accounts),
            Ok(s) => if old(accounts).ata_source.balance < spec_paid(*pool, s) {
                r == Err::<u64, PoolError>(PoolError::InsufficientFunds) && *final(accounts)
                    == *old(accounts)
            } else if !spec_receivers_fit(*old(accounts), *pool, s) {
                r == Err::<u64, PoolError>(PoolError::BalanceOverflow) && *final(accounts)
                    == *old(accounts)
            } else {
                r == Ok::<u64, PoolError>(s.receive_amount) && *final(accounts)
                    == spec_apply_settlement(*old(accounts), *pool, s)
            },
        }),
        r is Err ==> *final(accounts) == *old(accounts),
{
    let s = match plan_swap(pool, accounts, amount) {
        Ok(s) => s,
        Err(e) => {
            return Err(e);
        },
    };
    let fee_leg_runs: bool = s.fee_leg.is_some();
    proof {
        assert(fee_leg_runs == spec_fee_leg(*pool, s.fee as int));
    }
    let paid: u64 = if fee_leg_runs {
        amount
    } else {
        s.send_amount
    };
    if accounts.ata_source.balance < paid {
        return Err(PoolError::InsufficientFunds);
    }
    if fee_leg_runs {
        let fits: bool = match &accounts.fee_account {
            Some(facct) => facct.balance <= u64::MAX - s.fee,
            None => true,
        };
        if !fits {
            return Err(PoolError::BalanceOverflow);
        }
    }
    if accounts.ata_destination.balance > u64::MAX - s.receive_amount {
        return Err(PoolError::BalanceOverflow);
    }
    accounts.ata_source.balance = accounts.ata_source.balance - paid;
    accounts.pool_ata_source.balance = accounts.pool_ata_source.balance + s.send_amount;
    accounts.pool_ata_destination.balance = accounts.pool_ata_destination.balance
        - s.receive_amount;
    accounts.ata_destination.balance = accounts.ata_destination.balance + s.receive_amount;
    if fee_leg_runs {
        match &mut accounts.fee_account {
            Some(facct) => {
                facct.balance = facct.balance + s.fee;
            },
            None => {
            },
        }
    }
    Ok(s.receive_amount)
}

} // verus!
