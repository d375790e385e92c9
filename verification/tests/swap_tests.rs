use solarpool::swap::{plan_swap, swap, Swap};
use solarpool::{AccountId, LiquidityPool, PoolError, TokenAccountState, TransferDirection};

fn id(n: u64) -> AccountId {
    AccountId::new(n, 0, 0, 0)
}

fn acct(account: u64, mint: u64, owner: u64, balance: u64) -> TokenAccountState {
    TokenAccountState { id: id(account), mint: id(mint), owner: id(owner), balance }
}

/// A pool over mints 11 (A) and 12 (B), custodial accounts 21 and 22
/// owned by authority 30, reserves as the swap tests hand them in.
fn test_pool(fee_rate: u64, fee_account: Option<AccountId>, invariant: u128) -> LiquidityPool {
    LiquidityPool {
        owner: id(1),
        mint_pool: id(10),
        mint_a: id(11),
        mint_b: id(12),
        ata_pool: id(20),
        ata_a: id(21),
        ata_b: id(22),
        authority: id(30),
        bump: 255,
        fee_account,
        fee_rate,
        invariant,
    }
}

/// Accounts for an A-to-B swap: user 50 sells from account 40 and
/// receives into account 41; pool reserves are 1000 and 1000 unless a
/// test changes them.
fn swap_accounts(fee_account: Option<TokenAccountState>) -> Swap {
    Swap {
        pool_ata_source: acct(21, 11, 30, 1000),
        pool_ata_destination: acct(22, 12, 30, 1000),
        ata_source: acct(40, 11, 50, 1000),
        ata_destination: acct(41, 12, 50, 0),
        fee_account,
        user: id(50),
    }
}

#[test]
fn direction_resolves_both_ways() {
    let pool = test_pool(0, None, 1_000_000);
    assert_eq!(
        TransferDirection::new(&pool, &id(11), &id(12)),
        Ok(TransferDirection::AtoB)
    );
    assert_eq!(
        TransferDirection::new(&pool, &id(12), &id(11)),
        Ok(TransferDirection::BtoA)
    );
}

#[test]
fn direction_rejects_other_pairs() {
    let pool = test_pool(0, None, 1_000_000);
    assert_eq!(
        TransferDirection::new(&pool, &id(11), &id(11)),
        Err(PoolError::InvalidDirection)
    );
    assert_eq!(
        TransferDirection::new(&pool, &id(12), &id(12)),
        Err(PoolError::InvalidDirection)
    );
    assert_eq!(
        TransferDirection::new(&pool, &id(11), &id(99)),
        Err(PoolError::InvalidDirection)
    );
    assert_eq!(
        TransferDirection::new(&pool, &id(99), &id(12)),
        Err(PoolError::InvalidDirection)
    );
    assert_eq!(
        TransferDirection::new(&pool, &id(98), &id(99)),
        Err(PoolError::InvalidDirection)
    );
}

#[test]
fn swap_scenario_no_fee() {
    let pool = test_pool(0, None, 1_000_000);
    let mut accounts = swap_accounts(None);
    let receive = swap(&pool, &mut accounts, 100).unwrap();
    assert_eq!(receive, 91);
    assert_eq!(accounts.ata_source.balance, 900);
    assert_eq!(accounts.pool_ata_source.balance, 1100);
    assert_eq!(accounts.pool_ata_destination.balance, 909);
    assert_eq!(accounts.ata_destination.balance, 91);
}

#[test]
fn swap_scenario_one_percent_fee() {
    let pool = test_pool(100, Some(id(60)), 1_000_000);
    let mut accounts = swap_accounts(Some(acct(60, 11, 61, 0)));
    let plan = plan_swap(&pool, &accounts, 100).unwrap();
    assert_eq!(plan.fee, 1);
    assert_eq!(plan.send_amount, 99);
    // 1,000,000 / 1099 floors to 909, so the payout is 1000 - 909.
    assert_eq!(plan.receive_amount, 91);
    let fee_leg = plan.fee_leg.unwrap();
    assert_eq!(fee_leg.from, id(40));
    assert_eq!(fee_leg.to, id(60));
    assert_eq!(fee_leg.amount, 1);
    assert_eq!(fee_leg.authority, id(50));
    assert_eq!(plan.deposit_leg.from, id(40));
    assert_eq!(plan.deposit_leg.to, id(21));
    assert_eq!(plan.deposit_leg.amount, 99);
    assert_eq!(plan.deposit_leg.authority, id(50));
    assert_eq!(plan.payout_leg.from, id(22));
    assert_eq!(plan.payout_leg.to, id(41));
    assert_eq!(plan.payout_leg.amount, 91);
    assert_eq!(plan.payout_leg.authority, id(30));

    let receive = swap(&pool, &mut accounts, 100).unwrap();
    assert_eq!(receive, 91);
    assert_eq!(accounts.ata_source.balance, 900);
    assert_eq!(accounts.pool_ata_source.balance, 1099);
    assert_eq!(accounts.pool_ata_destination.balance, 909);
    assert_eq!(accounts.ata_destination.balance, 91);
    assert_eq!(accounts.fee_account.unwrap().balance, 1);
}

#[test]
fn fee_rounds_half_away_from_zero() {
    let pool = test_pool(100, Some(id(60)), 1_000_000);
    let accounts = swap_accounts(Some(acct(60, 11, 61, 0)));
    let plan = plan_swap(&pool, &accounts, 49).unwrap();
    assert_eq!(plan.fee, 0);
    assert_eq!(plan.fee_leg, None);
    assert_eq!(plan.fee + plan.send_amount, 49);
    let plan = plan_swap(&pool, &accounts, 50).unwrap();
    assert_eq!(plan.fee, 1);
    assert_eq!(plan.fee + plan.send_amount, 50);
    let plan = plan_swap(&pool, &accounts, 149).unwrap();
    assert_eq!(plan.fee, 1);
    assert_eq!(plan.fee + plan.send_amount, 149);
    let plan = plan_swap(&pool, &accounts, 150).unwrap();
    assert_eq!(plan.fee, 2);
    assert_eq!(plan.fee + plan.send_amount, 150);
}

#[test]
fn swap_without_fee_account_keeps_fee_with_user() {
    let pool = test_pool(100, None, 1_000_000);
    let mut accounts = swap_accounts(None);
    let receive = swap(&pool, &mut accounts, 100).unwrap();
    assert_eq!(receive, 91);
    assert_eq!(accounts.ata_source.balance, 901);
    assert_eq!(accounts.pool_ata_source.balance, 1099);
}

#[test]
fn swap_rejects_insufficient_liquidity() {
    let pool = test_pool(0, None, 1_000_000_000_000);
    let mut accounts = swap_accounts(None);
    accounts.pool_ata_destination.balance = 10;
    let before = accounts;
    assert_eq!(
        swap(&pool, &mut accounts, 100),
        Err(PoolError::InsufficientLiquidity)
    );
    assert_eq!(accounts, before);
}

#[test]
fn swap_rejects_degenerate_fee_rate() {
    let pool = test_pool(20000, None, 1_000_000);
    let mut accounts = swap_accounts(None);
    let before = accounts;
    assert_eq!(
        swap(&pool, &mut accounts, 100),
        Err(PoolError::DegenerateFeeRate)
    );
    assert_eq!(accounts, before);
}

#[test]
fn swap_rejects_reserve_overflow() {
    let pool = test_pool(0, None, 1_000_000);
    let mut accounts = swap_accounts(None);
    accounts.pool_ata_source.balance = u64::MAX;
    let before = accounts;
    assert_eq!(swap(&pool, &mut accounts, 100), Err(PoolError::ReserveOverflow));
    assert_eq!(accounts, before);
}

#[test]
fn swap_rejects_zero_reserves() {
    let pool = test_pool(0, None, 1_000_000);
    let mut accounts = swap_accounts(None);
    accounts.pool_ata_source.balance = 0;
    let before = accounts;
    assert_eq!(swap(&pool, &mut accounts, 0), Err(PoolError::ZeroReserves));
    assert_eq!(accounts, before);
}

#[test]
fn swap_rejects_insufficient_funds() {
    let pool = test_pool(0, None, 1_000_000);
    let mut accounts = swap_accounts(None);
    accounts.ata_source.balance = 50;
    let before = accounts;
    assert_eq!(
        swap(&pool, &mut accounts, 100),
        Err(PoolError::InsufficientFunds)
    );
    assert_eq!(accounts, before);
}

#[test]
fn swap_rejects_receiver_balance_overflow() {
    let pool = test_pool(0, None, 1_000_000);
    let mut accounts = swap_accounts(None);
    accounts.ata_destination.balance = u64::MAX;
    let before = accounts;
    assert_eq!(swap(&pool, &mut accounts, 100), Err(PoolError::BalanceOverflow));
    assert_eq!(accounts, before);
}

#[test]
fn swap_rejects_wrong_custodial_account() {
    let pool = test_pool(0, None, 1_000_000);
    let mut accounts = swap_accounts(None);
    accounts.pool_ata_source.id = id(99);
    let before = accounts;
    assert_eq!(swap(&pool, &mut accounts, 100), Err(PoolError::AccountMismatch));
    assert_eq!(accounts, before);
}

#[test]
fn swap_rejects_custodial_account_not_owned_by_authority() {
    let pool = test_pool(0, None, 1_000_000);
    let mut accounts = swap_accounts(None);
    accounts.pool_ata_destination.owner = id(50);
    assert_eq!(swap(&pool, &mut accounts, 100), Err(PoolError::AccountMismatch));
}

#[test]
fn swap_rejects_invalid_direction() {
    let pool = test_pool(0, None, 1_000_000);
    let mut accounts = swap_accounts(None);
    accounts.ata_destination.mint = id(11);
    assert_eq!(swap(&pool, &mut accounts, 100), Err(PoolError::InvalidDirection));
}

#[test]
fn swap_b_to_a_direction() {
    let pool = test_pool(0, None, 1_000_000);
    let mut accounts = Swap {
        pool_ata_source: acct(22, 12, 30, 1000),
        pool_ata_destination: acct(21, 11, 30, 1000),
        ata_source: acct(40, 12, 50, 1000),
        ata_destination: acct(41, 11, 50, 0),
        fee_account: None,
        user: id(50),
    };
    let plan = plan_swap(&pool, &accounts, 100).unwrap();
    assert_eq!(plan.direction, TransferDirection::BtoA);
    assert_eq!(swap(&pool, &mut accounts, 100), Ok(91));
}

#[test]
fn constant_product_bound_holds_after_swap() {
    let pool = test_pool(0, None, 1_000_000);
    let accounts = swap_accounts(None);
    let plan = plan_swap(&pool, &accounts, 100).unwrap();
    let src_after = 1000u128 + 100;
    let dst_after = 1000u128 - plan.receive_amount as u128;
    assert!(src_after * dst_after <= pool.invariant);
    assert!(pool.invariant < src_after * (dst_after + 1));
}

#[test]
fn pool_record_size() {
    assert_eq!(LiquidityPool::get_size(), 314);
}
