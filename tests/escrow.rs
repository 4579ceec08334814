use rental_escrow::address::Address;
use rental_escrow::derivation::{escrow_address, property_address, tenancy_address};
use rental_escrow::engine::Ledger;
use rental_escrow::state::{RentalError, TenancyStatus};

const RENT: u64 = 1000;
const DEPOSIT: u64 = 500;
const LEASE: i64 = 2_592_000;
const NOW: i64 = 1_700_000_000;

fn addr(b: u8) -> Address {
    Address::new([b; 32])
}

fn program() -> Address {
    addr(200)
}

fn owner() -> Address {
    addr(1)
}

fn tenant_a() -> Address {
    addr(2)
}

fn tenant_b() -> Address {
    addr(3)
}

/// A ledger with one open contract and two funded tenants.
fn setup(funds: u64) -> (Ledger, Address) {
    let mut l = Ledger::new(program());
    let c = l
        .create_property_contract(&owner(), RENT, DEPOSIT, LEASE, NOW)
        .unwrap();
    l.fund_wallet(&tenant_a(), funds).unwrap();
    l.fund_wallet(&tenant_b(), funds).unwrap();
    (l, c)
}

#[test]
fn full_rental_cycle_scenario() {
    let (mut l, c) = setup(5000);
    let t = l.tenant_check_in(&tenant_a(), &c, NOW).unwrap();
    let tn = l.tenancy(&t).unwrap();
    assert_eq!(l.balance_of(&tn.escrow_account), 1500);
    assert_eq!(l.balance_of(&tenant_a()), 3500);
    assert!(!l.contract(&c).unwrap().contract_enabled);

    assert_eq!(
        l.tenant_check_in(&tenant_b(), &c, NOW + 10),
        Err(RentalError::ContractDisabled)
    );

    l.tenant_check_out(&tenant_a(), &t).unwrap();
    assert_eq!(l.balance_of(&tn.escrow_account), 0);
    assert_eq!(l.balance_of(&tenant_a()), 5000);
    assert!(l.contract(&c).unwrap().contract_enabled);
    assert_eq!(l.tenancy(&t).unwrap().status, TenancyStatus::CheckedOut);

    let tb = l.tenant_check_in(&tenant_b(), &c, NOW + 20).unwrap();
    let tnb = l.tenancy(&tb).unwrap();
    assert_eq!(tnb.status, TenancyStatus::Active);
    assert_eq!(l.balance_of(&tnb.escrow_account), 1500);
    assert_eq!(l.balance_of(&tenant_b()), 3500);
}

#[test]
fn create_opens_contract_with_terms() {
    let mut l = Ledger::new(program());
    let c = l
        .create_property_contract(&owner(), RENT, DEPOSIT, LEASE, NOW)
        .unwrap();
    let pc = l.contract(&c).unwrap();
    assert!(pc.contract_enabled);
    assert_eq!(pc.owner, owner());
    assert_eq!(pc.rent_amount, 1000);
    assert_eq!(pc.security_deposit, 500);
    assert_eq!(pc.lease_duration, 2_592_000);
    assert_eq!(pc.creation_timestamp, NOW);
    let (expected, bump) = property_address(&program(), &owner()).unwrap();
    assert_eq!(c, expected);
    assert_eq!(pc.bump, bump);
}

#[test]
fn second_create_by_same_owner_fails() {
    let mut l = Ledger::new(program());
    let c = l
        .create_property_contract(&owner(), RENT, DEPOSIT, LEASE, NOW)
        .unwrap();
    assert_eq!(
        l.create_property_contract(&owner(), 7, 0, 60, NOW + 1),
        Err(RentalError::AlreadyExists)
    );
    assert_eq!(l.contract(&c).unwrap().rent_amount, 1000);
    // another owner gets a contract of its own
    let other = l
        .create_property_contract(&addr(9), 7, 0, 60, NOW + 1)
        .unwrap();
    assert_ne!(other, c);
}

#[test]
fn zero_deposit_is_accepted() {
    let mut l = Ledger::new(program());
    let c = l.create_property_contract(&owner(), 10, 0, 1, NOW).unwrap();
    l.fund_wallet(&tenant_a(), 10).unwrap();
    let t = l.tenant_check_in(&tenant_a(), &c, NOW).unwrap();
    let tn = l.tenancy(&t).unwrap();
    assert_eq!(l.balance_of(&tn.escrow_account), 10);
    assert_eq!(l.balance_of(&tenant_a()), 0);
}

#[test]
fn check_in_on_disabled_contract_moves_nothing() {
    let (mut l, c) = setup(5000);
    let t = l.tenant_check_in(&tenant_a(), &c, NOW).unwrap();
    let vault = l.tenancy(&t).unwrap().escrow_account;
    assert_eq!(
        l.tenant_check_in(&tenant_b(), &c, NOW),
        Err(RentalError::ContractDisabled)
    );
    assert_eq!(l.balance_of(&tenant_b()), 5000);
    assert_eq!(l.balance_of(&vault), 1500);
    assert_eq!(l.balance_of(&tenant_a()), 3500);
}

#[test]
fn check_in_records_tenancy() {
    let (mut l, c) = setup(5000);
    let t = l.tenant_check_in(&tenant_a(), &c, NOW).unwrap();
    let tn = l.tenancy(&t).unwrap();
    assert_eq!(tn.tenant, tenant_a());
    assert_eq!(tn.property_contract, c);
    assert_eq!(tn.check_in_timestamp, NOW);
    assert_eq!(tn.planned_checkout, NOW + 2_592_000);
    assert_eq!(tn.status, TenancyStatus::Active);
    let (expected, bump) = tenancy_address(&program(), &c, &tenant_a()).unwrap();
    assert_eq!(t, expected);
    assert_eq!(tn.bump, bump);
    let (vault, _) = escrow_address(&program(), &t).unwrap();
    assert_eq!(tn.escrow_account, vault);
}

#[test]
fn check_in_with_insufficient_funds_fails() {
    let (mut l, c) = setup(1499);
    assert_eq!(
        l.tenant_check_in(&tenant_a(), &c, NOW),
        Err(RentalError::InsufficientFunds)
    );
    assert_eq!(l.balance_of(&tenant_a()), 1499);
    assert!(l.contract(&c).unwrap().contract_enabled);
}

#[test]
fn check_in_without_wallet_fails() {
    let (mut l, c) = setup(5000);
    assert_eq!(
        l.tenant_check_in(&addr(77), &c, NOW),
        Err(RentalError::InsufficientFunds)
    );
}

#[test]
fn check_in_on_unknown_contract_fails() {
    let (mut l, _c) = setup(5000);
    assert_eq!(
        l.tenant_check_in(&tenant_a(), &addr(99), NOW),
        Err(RentalError::UnknownRecord)
    );
}

#[test]
fn check_in_total_overflow_fails() {
    let mut l = Ledger::new(program());
    let c = l
        .create_property_contract(&owner(), u64::MAX, 1, LEASE, NOW)
        .unwrap();
    l.fund_wallet(&tenant_a(), u64::MAX).unwrap();
    assert_eq!(
        l.tenant_check_in(&tenant_a(), &c, NOW),
        Err(RentalError::ArithmeticOverflow)
    );
}

#[test]
fn check_in_checkout_time_overflow_fails() {
    let (mut l, c) = setup(5000);
    assert_eq!(
        l.tenant_check_in(&tenant_a(), &c, i64::MAX),
        Err(RentalError::ArithmeticOverflow)
    );
    assert_eq!(l.balance_of(&tenant_a()), 5000);
}

#[test]
fn check_out_when_not_active_fails() {
    let (mut l, c) = setup(5000);
    let t = l.tenant_check_in(&tenant_a(), &c, NOW).unwrap();
    let vault = l.tenancy(&t).unwrap().escrow_account;
    l.tenant_check_out(&tenant_a(), &t).unwrap();
    assert_eq!(
        l.tenant_check_out(&tenant_a(), &t),
        Err(RentalError::TenancyNotActive)
    );
    assert_eq!(l.balance_of(&vault), 0);
    assert_eq!(l.balance_of(&tenant_a()), 5000);
}

#[test]
fn check_out_by_other_party_is_unauthorized() {
    let (mut l, c) = setup(5000);
    let t = l.tenant_check_in(&tenant_a(), &c, NOW).unwrap();
    let vault = l.tenancy(&t).unwrap().escrow_account;
    assert_eq!(
        l.tenant_check_out(&tenant_b(), &t),
        Err(RentalError::Unauthorized)
    );
    assert_eq!(l.balance_of(&vault), 1500);
    assert_eq!(l.tenancy(&t).unwrap().status, TenancyStatus::Active);
}

#[test]
fn check_out_of_unknown_tenancy_fails() {
    let (mut l, _c) = setup(5000);
    assert_eq!(
        l.tenant_check_out(&tenant_a(), &addr(42)),
        Err(RentalError::UnknownRecord)
    );
}

#[test]
fn check_out_returns_rent_and_deposit_to_tenant() {
    let (mut l, c) = setup(5000);
    let t = l.tenant_check_in(&tenant_a(), &c, NOW).unwrap();
    l.tenant_check_out(&tenant_a(), &t).unwrap();
    // the owner receives nothing; the whole vault goes back to the tenant
    assert_eq!(l.balance_of(&owner()), 0);
    assert_eq!(l.balance_of(&tenant_a()), 5000);
}

#[test]
fn tenant_cannot_check_in_twice_to_same_contract() {
    let (mut l, c) = setup(5000);
    let t = l.tenant_check_in(&tenant_a(), &c, NOW).unwrap();
    l.tenant_check_out(&tenant_a(), &t).unwrap();
    assert_eq!(
        l.tenant_check_in(&tenant_a(), &c, NOW + 5),
        Err(RentalError::AlreadyExists)
    );
    assert!(l.contract(&c).unwrap().contract_enabled);
}

#[test]
fn status_query() {
    let (mut l, c) = setup(5000);
    let t = l.tenant_check_in(&tenant_a(), &c, NOW).unwrap();
    let other = l
        .create_property_contract(&addr(9), 5, 5, 5, NOW)
        .unwrap();
    assert_eq!(
        l.get_tenant_status(&t, &tenant_a(), &other),
        Ok(TenancyStatus::Active)
    );
    assert_eq!(
        l.get_tenant_status(&t, &tenant_b(), &c),
        Ok(TenancyStatus::Active)
    );
    assert_eq!(
        l.get_tenant_status(&t, &tenant_b(), &other),
        Err(RentalError::Unauthorized)
    );
    assert_eq!(
        l.get_tenant_status(&addr(42), &tenant_a(), &c),
        Err(RentalError::UnknownRecord)
    );
    l.tenant_check_out(&tenant_a(), &t).unwrap();
    assert_eq!(
        l.get_tenant_status(&t, &tenant_a(), &c),
        Ok(TenancyStatus::CheckedOut)
    );
}

#[test]
fn fund_wallet_adds_and_checks_overflow() {
    let mut l = Ledger::new(program());
    assert_eq!(l.balance_of(&tenant_a()), 0);
    l.fund_wallet(&tenant_a(), 40).unwrap();
    l.fund_wallet(&tenant_a(), 2).unwrap();
    assert_eq!(l.balance_of(&tenant_a()), 42);
    assert_eq!(
        l.fund_wallet(&tenant_a(), u64::MAX),
        Err(RentalError::ArithmeticOverflow)
    );
    assert_eq!(l.balance_of(&tenant_a()), 42);
}

#[test]
fn escrow_vault_cannot_be_funded_as_wallet() {
    let (mut l, c) = setup(5000);
    let t = l.tenant_check_in(&tenant_a(), &c, NOW).unwrap();
    let vault = l.tenancy(&t).unwrap().escrow_account;
    assert_eq!(l.fund_wallet(&vault, 1), Err(RentalError::Unauthorized));
    assert_eq!(l.balance_of(&vault), 1500);
}

#[test]
fn reservation_cycle_moves_no_value() {
    let (mut l, c) = setup(5000);
    let t = l.reserve_property(&tenant_a(), &c, NOW).unwrap();
    assert!(!l.contract(&c).unwrap().contract_enabled);
    assert_eq!(l.balance_of(&tenant_a()), 5000);
    let tn = l.tenancy(&t).unwrap();
    assert_eq!(tn.status, TenancyStatus::Active);
    assert_eq!(tn.escrow_account, Address::new([0u8; 32]));
    assert_eq!(
        l.reserve_property(&tenant_b(), &c, NOW),
        Err(RentalError::ContractDisabled)
    );
    assert_eq!(
        l.end_reservation(&tenant_b(), &t),
        Err(RentalError::Unauthorized)
    );
    l.end_reservation(&tenant_a(), &t).unwrap();
    let tn = l.tenancy(&t).unwrap();
    assert_eq!(tn.status, TenancyStatus::CheckedOut);
    assert_eq!(tn.planned_checkout, NOW + LEASE);
    assert_eq!(tn.check_in_timestamp, NOW);
    assert!(l.contract(&c).unwrap().contract_enabled);
    assert_eq!(
        l.end_reservation(&tenant_a(), &t),
        Err(RentalError::TenancyNotActive)
    );
    assert_eq!(l.balance_of(&tenant_a()), 5000);
}

#[test]
fn derived_addresses_are_deterministic_and_distinct() {
    let (a1, b1) = property_address(&program(), &owner()).unwrap();
    let (a2, b2) = property_address(&program(), &owner()).unwrap();
    assert_eq!(a1, a2);
    assert_eq!(b1, b2);
    assert_ne!(a1, owner());
    assert_ne!(a1, program());
    let (other, _) = property_address(&addr(201), &owner()).unwrap();
    assert_ne!(a1, other);
    let (t, _) = tenancy_address(&program(), &a1, &tenant_a()).unwrap();
    let (e, _) = escrow_address(&program(), &t).unwrap();
    assert_ne!(t, a1);
    assert_ne!(e, t);
}

#[test]
fn address_comparison() {
    let mut bytes = [5u8; 32];
    assert!(Address::new(bytes).same_as(&Address::new(bytes)));
    bytes[31] = 6;
    assert!(!Address::new([5u8; 32]).same_as(&Address::new(bytes)));
    assert_ne!(Address::new([5u8; 32]), Address::new(bytes));
}
