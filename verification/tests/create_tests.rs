use solarpool::authority::{derive_authority, verify_pool_authority};
use solarpool::create::{create_solarpool, CreateSolarpool, PoolRegistry};
use solarpool::{AccountId, PoolError, TokenAccountState};

fn id(n: u64) -> AccountId {
    AccountId::new(n, 0, 0, 0)
}

/// Custodial accounts owned by `authority`, holding mints 10, 11, 12
/// with the given A and B reserves.
fn creation_accounts(owner: AccountId, authority: AccountId, bal_a: u64, bal_b: u64) -> CreateSolarpool {
    CreateSolarpool {
        owner,
        ata_pool: TokenAccountState { id: id(20), mint: id(10), owner: authority, balance: 0 },
        ata_a: TokenAccountState { id: id(21), mint: id(11), owner: authority, balance: bal_a },
        ata_b: TokenAccountState { id: id(22), mint: id(12), owner: authority, balance: bal_b },
    }
}

#[test]
fn authority_derivation_is_deterministic_and_not_the_owner() {
    let owner = id(1);
    let (authority, bump) = derive_authority(&owner).expect("no authority for owner");
    let (authority2, bump2) = derive_authority(&owner).expect("no authority for owner");
    assert_eq!(authority, authority2);
    assert_eq!(bump, bump2);
    assert_ne!(authority, owner);
    let (other_authority, _) = derive_authority(&id(2)).expect("no authority for owner");
    assert_ne!(authority, other_authority);
}

#[test]
fn create_pool_records_invariant_and_authority() {
    let owner = id(1);
    let (authority, bump) = derive_authority(&owner).unwrap();
    let mut registry = PoolRegistry::new();
    let accounts = creation_accounts(owner, authority, 1000, 2000);
    let pool = create_solarpool(
        &mut registry,
        &accounts,
        id(10),
        id(11),
        id(12),
        Some(id(60)),
        100,
    )
    .unwrap();
    assert_eq!(pool.owner, owner);
    assert_eq!(pool.mint_a, id(11));
    assert_eq!(pool.mint_b, id(12));
    assert_eq!(pool.ata_a, id(21));
    assert_eq!(pool.ata_b, id(22));
    assert_eq!(pool.authority, authority);
    assert_eq!(pool.bump, bump);
    assert_eq!(pool.fee_account, Some(id(60)));
    assert_eq!(pool.fee_rate, 100);
    assert_eq!(pool.invariant, 2_000_000);
    assert!(registry.has_pool(&owner));
    assert_eq!(registry.pool_for(&owner), Some(pool));
    assert!(verify_pool_authority(&pool));
}

#[test]
fn verify_authority_rejects_tampered_record() {
    let owner = id(1);
    let (authority, _) = derive_authority(&owner).unwrap();
    let mut registry = PoolRegistry::new();
    let accounts = creation_accounts(owner, authority, 0, 0);
    let mut pool =
        create_solarpool(&mut registry, &accounts, id(10), id(11), id(12), None, 0).unwrap();
    pool.authority = owner;
    assert!(!verify_pool_authority(&pool));
}

#[test]
fn create_second_pool_for_same_owner_fails() {
    let owner = id(1);
    let (authority, _) = derive_authority(&owner).unwrap();
    let mut registry = PoolRegistry::new();
    let accounts = creation_accounts(owner, authority, 1000, 1000);
    create_solarpool(&mut registry, &accounts, id(10), id(11), id(12), None, 0).unwrap();
    assert_eq!(
        create_solarpool(&mut registry, &accounts, id(10), id(11), id(12), None, 0),
        Err(PoolError::PoolAlreadyExists)
    );
    let other = id(2);
    let (other_authority, _) = derive_authority(&other).unwrap();
    let other_accounts = creation_accounts(other, other_authority, 0, 0);
    assert!(
        create_solarpool(&mut registry, &other_accounts, id(10), id(11), id(12), None, 0).is_ok()
    );
}

#[test]
fn create_pool_with_equal_mints_fails() {
    let owner = id(1);
    let (authority, _) = derive_authority(&owner).unwrap();
    let mut registry = PoolRegistry::new();
    let accounts = creation_accounts(owner, authority, 1000, 1000);
    assert_eq!(
        create_solarpool(&mut registry, &accounts, id(10), id(11), id(11), None, 0),
        Err(PoolError::SameAssetMints)
    );
    assert!(!registry.has_pool(&owner));
}

#[test]
fn create_rejects_custodial_account_not_owned_by_authority() {
    let owner = id(1);
    let mut registry = PoolRegistry::new();
    let accounts = creation_accounts(owner, owner, 1000, 1000);
    assert_eq!(
        create_solarpool(&mut registry, &accounts, id(10), id(11), id(12), None, 0),
        Err(PoolError::CustodialOwnerMismatch)
    );
}

#[test]
fn create_rejects_custodial_account_with_wrong_mint() {
    let owner = id(1);
    let (authority, _) = derive_authority(&owner).unwrap();
    let mut registry = PoolRegistry::new();
    let mut accounts = creation_accounts(owner, authority, 1000, 1000);
    accounts.ata_a.mint = id(99);
    assert_eq!(
        create_solarpool(&mut registry, &accounts, id(10), id(11), id(12), None, 0),
        Err(PoolError::AccountMismatch)
    );
}

#[test]
fn create_rejects_fee_rate_of_one_or_more() {
    let owner = id(1);
    let (authority, _) = derive_authority(&owner).unwrap();
    let mut registry = PoolRegistry::new();
    let accounts = creation_accounts(owner, authority, 1000, 1000);
    assert_eq!(
        create_solarpool(&mut registry, &accounts, id(10), id(11), id(12), None, 10000),
        Err(PoolError::DegenerateFeeRate)
    );
}

#[test]
fn registry_lookup_on_empty_registry() {
    let registry = PoolRegistry::new();
    assert!(!registry.has_pool(&id(1)));
    assert_eq!(registry.pool_for(&id(1)), None);
}
