use solana_pump_fun::errors::CustomErrors;
use solana_pump_fun::identity::Identity;
use solana_pump_fun::platform::{
    change_fees, change_owner, change_target_pool_balance, change_total_supply,
    change_virtual_sol_amount, initialize, withdraw_fees, Platform, PlatformInitParams,
};

fn id(b: u8) -> Identity {
    Identity::new([b; 32])
}

fn params(fee_in_bps: u64) -> PlatformInitParams {
    PlatformInitParams {
        owner: id(1),
        fee_in_bps,
        total_supply: 1_000_000,
        virtual_sol: 1000,
        target_pool_balance: 1100,
    }
}

fn platform() -> Platform {
    initialize(params(100)).unwrap()
}

#[test]
fn identity_compares_every_byte() {
    let mut bytes = [7u8; 32];
    assert!(id(7).same_as(&Identity::new(bytes)));
    bytes[31] = 8;
    assert!(!id(7).same_as(&Identity::new(bytes)));
    bytes[31] = 7;
    bytes[0] = 0;
    assert!(!id(7).same_as(&Identity::new(bytes)));
}

#[test]
fn initialize_sets_every_field() {
    let p = platform();
    assert_eq!(p.owner, id(1));
    assert_eq!(p.fee_in_bps, 100);
    assert_eq!(p.accumulated_fees, 0);
    assert_eq!(p.total_supply, 1_000_000);
    assert_eq!(p.virtual_sol, 1000);
    assert_eq!(p.target_pool_balance, 1100);
}

#[test]
fn initialize_at_fee_cap() {
    assert_eq!(initialize(params(500)).unwrap().fee_in_bps, 500);
}

#[test]
fn initialize_above_fee_cap_fails() {
    assert_eq!(initialize(params(501)), Err(CustomErrors::ExcessiveFees));
}

#[test]
fn owner_changes_configuration() {
    let mut p = platform();
    assert_eq!(change_fees(&mut p, &id(1), 250), Ok(()));
    assert_eq!(p.fee_in_bps, 250);
    assert_eq!(change_total_supply(&mut p, &id(1), 5), Ok(()));
    assert_eq!(p.total_supply, 5);
    assert_eq!(change_virtual_sol_amount(&mut p, &id(1), 6), Ok(()));
    assert_eq!(p.virtual_sol, 6);
    assert_eq!(change_target_pool_balance(&mut p, &id(1), 7), Ok(()));
    assert_eq!(p.target_pool_balance, 7);
    assert_eq!(change_owner(&mut p, &id(1), id(2)), Ok(()));
    assert_eq!(p.owner, id(2));
    assert_eq!(change_fees(&mut p, &id(1), 300), Err(CustomErrors::NotOwner));
    assert_eq!(p.fee_in_bps, 250);
}

#[test]
fn non_owner_cannot_change_configuration() {
    let mut p = platform();
    let before = p;
    assert_eq!(change_owner(&mut p, &id(9), id(9)), Err(CustomErrors::NotOwner));
    assert_eq!(change_fees(&mut p, &id(9), 10), Err(CustomErrors::NotOwner));
    assert_eq!(change_total_supply(&mut p, &id(9), 10), Err(CustomErrors::NotOwner));
    assert_eq!(change_virtual_sol_amount(&mut p, &id(9), 10), Err(CustomErrors::NotOwner));
    assert_eq!(change_target_pool_balance(&mut p, &id(9), 10), Err(CustomErrors::NotOwner));
    assert_eq!(p, before);
}

#[test]
fn change_fees_above_cap_fails() {
    let mut p = platform();
    assert_eq!(change_fees(&mut p, &id(1), 501), Err(CustomErrors::ExcessiveFees));
    assert_eq!(p.fee_in_bps, 100);
}

#[test]
fn accrue_adds_and_refuses_overflow() {
    let mut p = platform();
    assert_eq!(p.accrue(5), Ok(()));
    assert_eq!(p.accrue(7), Ok(()));
    assert_eq!(p.accumulated_fees, 12);
    assert_eq!(p.accrue(u64::MAX - 12), Ok(()));
    assert_eq!(p.accumulated_fees, u64::MAX);
    assert_eq!(p.accrue(1), Err(CustomErrors::Overflow));
    assert_eq!(p.accumulated_fees, u64::MAX);
}

#[test]
fn owner_withdraws_and_clears_fees() {
    let mut p = platform();
    p.accrue(42).unwrap();
    assert_eq!(withdraw_fees(&mut p, &id(1)), Ok(42));
    assert_eq!(p.accumulated_fees, 0);
    assert_eq!(withdraw_fees(&mut p, &id(1)), Ok(0));
}

#[test]
fn withdraw_by_non_owner_fails() {
    let mut p = platform();
    p.accrue(42).unwrap();
    assert_eq!(withdraw_fees(&mut p, &id(2)), Err(CustomErrors::NotOwner));
    assert_eq!(p.accumulated_fees, 42);
}
