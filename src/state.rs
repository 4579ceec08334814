use vstd::prelude::*;
use crate::address::Address;

verus! {

/// Where a tenancy stands in its lifecycle.
#[derive(Clone, Copy, Debug, PartialEq, Eq, Structural)]
pub enum TenancyStatus {
    Active,
    CheckedOut,
    /// No operation produces this state; it is kept for records that carry it.
    Terminated,
}

/// Why an operation was refused. A refused operation changes nothing.
#[derive(Clone, Copy, Debug, PartialEq, Eq, Structural)]
pub enum RentalError {
    /// The record that the operation would create is already there.
    AlreadyExists,
    /// The property contract is occupied or closed.
    ContractDisabled,
    /// The tenancy is not in the `Active` state.
    TenancyNotActive,
    /// The caller or the signing authority does not match the record.
    Unauthorized,
    /// The paying holding lacks the amount to move.
    InsufficientFunds,
    /// A referenced record does not exist.
    UnknownRecord,
    /// A sum of amounts or of timestamps leaves its integer range.
    ArithmeticOverflow,
    /// No bump seed yields a derived address for the record's seeds.
    NoViableAddress,
}

/// Rental terms set by an owner, and whether a new tenant may check in.
#[derive(Clone, Copy, Debug)]
pub struct PropertyContract {
    pub owner: Address,
    pub rent_amount: u64,
    pub security_deposit: u64,
    /// Lease length in seconds.
    pub lease_duration: i64,
    pub creation_timestamp: i64,
    /// `true`: open for a new tenant; `false`: occupied.
    pub contract_enabled: bool,
    pub bump: u8,
}

/// One occupancy of a property by a tenant.
#[derive(Clone, Copy, Debug)]
pub struct Tenancy {
    pub property_contract: Address,
    pub tenant: Address,
    pub check_in_timestamp: i64,
    pub planned_checkout: i64,
    pub status: TenancyStatus,
    /// The escrow vault that holds this tenancy's funds.
    pub escrow_account: Address,
    pub bump: u8,
}

/// A value-holding record: a tenant's wallet or an escrow vault. Only its
/// authority may move value out of it.
#[derive(Clone, Copy, Debug)]
pub struct Holding {
    pub authority: Address,
    pub balance: u64,
}

} // verus!
