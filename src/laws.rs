use vstd::prelude::*;
use crate::address::Address;
use crate::address::address_of;
use crate::derivation::{escrow_seeds, program_address, property_seeds, tenancy_seeds};
use crate::engine::{
    LedgerState, balance, check_in_outcome, check_out_outcome, checked_out, create_outcome,
    end_reservation_outcome, fund_outcome, reserve_outcome, total_due, with_enabled,
};
use crate::state::Tenancy;
use crate::state::{RentalError, TenancyStatus};

verus! {

/// Registering valid terms opens the contract to tenants, and once an owner
/// has a contract, a further registration by that owner is refused with
/// `AlreadyExists` and changes nothing. The only other refusal of the first
/// registration is a derivation without a viable address.
pub proof fn create_opens_and_refuses_second(
    s: LedgerState,
    owner: Address,
    rent_amount: u64,
    security_deposit: u64,
    lease_duration: i64,
    now: i64,
    rent_again: u64,
    deposit_again: u64,
    lease_again: i64,
    now_again: i64,
)
    requires
        rent_amount > 0,
        lease_duration > 0,
        rent_again > 0,
        lease_again > 0,
    ensures
        ({
            let (s1, r1) = create_outcome(s, owner, rent_amount, security_deposit, lease_duration, now);
            &&& r1 is Ok ==> s1.contracts.contains_key(r1->Ok_0) && s1.contracts[r1->Ok_0].contract_enabled
            &&& r1 is Ok || r1 == Err::<Seq<u8>, RentalError>(RentalError::AlreadyExists) || r1 == Err::<
                Seq<u8>,
                RentalError,
            >(RentalError::NoViableAddress)
            &&& r1 != Err::<Seq<u8>, RentalError>(RentalError::NoViableAddress) ==> create_outcome(
                s1,
                owner,
                rent_again,
                deposit_again,
                lease_again,
                now_again,
            ) == (s1, Err::<Seq<u8>, RentalError>(RentalError::AlreadyExists))
        }),
{
}

/// A check-in against a closed contract is refused with `ContractDisabled`
/// and moves no value.
pub proof fn check_in_refused_when_disabled(
    s: LedgerState,
    tenant: Address,
    property: Address,
    now: i64,
)
    requires
        s.contracts.contains_key(property@),
        !s.contracts[property@].contract_enabled,
    ensures
        check_in_outcome(s, tenant, property, now) == (s, Err::<Seq<u8>, RentalError>(
            RentalError::ContractDisabled,
        )),
{
}

/// After a successful check-in the tenancy's escrow vault holds exactly the
/// rent plus the deposit, taken from the tenant's wallet, and the contract
/// is closed.
pub proof fn check_in_funds_vault(s: LedgerState, tenant: Address, property: Address, now: i64)
    requires
        check_in_outcome(s, tenant, property, now).1 is Ok,
    ensures
        ({
            let (s1, r) = check_in_outcome(s, tenant, property, now);
            let t = r->Ok_0;
            let c = s.contracts[property@];
            &&& s1.tenancies.contains_key(t)
            &&& s1.tenancies[t].status == TenancyStatus::Active
            &&& s1.tenancies[t].tenant == tenant
            &&& s1.tenancies[t].property_contract == property
            &&& balance(s1, s1.tenancies[t].escrow_account@) == total_due(c)
            &&& balance(s1, tenant@) == balance(s, tenant@) - total_due(c)
            &&& !s1.contracts[property@].contract_enabled
        }),
{
}

/// A check-in succeeds when the contract is open, the amount due and the
/// planned check-out fit their ranges, the tenancy and vault addresses derive
/// and are free, and the tenant's own wallet covers rent plus deposit.
pub proof fn check_in_succeeds(s: LedgerState, tenant: Address, property: Address, now: i64)
    requires
        s.contracts.contains_key(property@),
        s.contracts[property@].contract_enabled,
        total_due(s.contracts[property@]) <= u64::MAX,
        i64::MIN <= now + s.contracts[property@].lease_duration <= i64::MAX,
        program_address(tenancy_seeds(property@, tenant@), s.program) is Some,
        ({
            let t = program_address(tenancy_seeds(property@, tenant@), s.program)->Some_0.0;
            &&& !s.tenancies.contains_key(address_of(t)@)
            &&& program_address(escrow_seeds(t), s.program) is Some
            &&& !s.holdings.contains_key(
                address_of(program_address(escrow_seeds(t), s.program)->Some_0.0)@,
            )
        }),
        s.holdings.contains_key(tenant@),
        s.holdings[tenant@].authority@ == tenant@,
        s.holdings[tenant@].balance >= total_due(s.contracts[property@]),
    ensures
        check_in_outcome(s, tenant, property, now).1 is Ok,
{
}

/// A check-out by the tenant of an active tenancy succeeds when its contract
/// and its vault exist, the vault's authority is the tenancy, the vault is
/// not the tenant's wallet, and the tenant's balance can take the vault's.
pub proof fn check_out_succeeds(s: LedgerState, tenant: Address, tenancy: Address)
    requires
        s.tenancies.contains_key(tenancy@),
        ({
            let tn = s.tenancies[tenancy@];
            &&& tn.status == TenancyStatus::Active
            &&& tn.tenant@ == tenant@
            &&& s.contracts.contains_key(tn.property_contract@)
            &&& s.holdings.contains_key(tn.escrow_account@)
            &&& s.holdings[tn.escrow_account@].authority@ == tenancy@
            &&& tn.escrow_account@ != tenant@
            &&& balance(s, tenant@) + s.holdings[tn.escrow_account@].balance <= u64::MAX
        }),
    ensures
        check_out_outcome(s, tenant, tenancy).1 is Ok,
{
}

/// A check-out from a tenancy that is not active is refused with
/// `TenancyNotActive` and leaves every balance as it was.
pub proof fn check_out_refused_when_not_active(s: LedgerState, tenant: Address, tenancy: Address)
    requires
        s.tenancies.contains_key(tenancy@),
        s.tenancies[tenancy@].status != TenancyStatus::Active,
    ensures
        check_out_outcome(s, tenant, tenancy) == (s, Err::<(), RentalError>(
            RentalError::TenancyNotActive,
        )),
{
}

/// After a successful check-out the vault is empty, its whole former
/// balance is in the tenant's wallet, the tenancy is checked out and the
/// contract is open again.
pub proof fn check_out_empties_vault(s: LedgerState, tenant: Address, tenancy: Address)
    requires
        check_out_outcome(s, tenant, tenancy).1 is Ok,
    ensures
        ({
            let (s1, r) = check_out_outcome(s, tenant, tenancy);
            let tn = s.tenancies[tenancy@];
            &&& balance(s1, tn.escrow_account@) == 0
            &&& balance(s1, tenant@) == balance(s, tenant@) + balance(s, tn.escrow_account@)
            &&& s1.tenancies[tenancy@].status == TenancyStatus::CheckedOut
            &&& s1.contracts[tn.property_contract@].contract_enabled
        }),
{
}

/// A check-in followed by the same tenant's check-out always succeeds, and
/// leaves the tenant's wallet as it was before the check-in, the vault
/// empty and the contract open again.
pub proof fn check_in_then_out_restores(s: LedgerState, tenant: Address, property: Address, now: i64)
    requires
        check_in_outcome(s, tenant, property, now).1 is Ok,
    ensures
        ({
            let (s1, r1) = check_in_outcome(s, tenant, property, now);
            let t = crate::address::address_of(r1->Ok_0);
            let (s2, r2) = check_out_outcome(s1, tenant, t);
            &&& r2 is Ok
            &&& balance(s2, tenant@) == balance(s, tenant@)
            &&& balance(s2, s1.tenancies[r1->Ok_0].escrow_account@) == 0
            &&& s2.contracts[property@].contract_enabled
        }),
{
    let (s1, r1) = check_in_outcome(s, tenant, property, now);
    let t = crate::address::address_of(r1->Ok_0);
    crate::address::lemma_address_of_view(t);
    let e = s1.tenancies[r1->Ok_0].escrow_account;
    crate::address::lemma_address_of_view(e);
    check_in_funds_vault(s, tenant, property, now);
}

/// `t` is an active tenancy of the contract at `p`.
pub open spec fn occupies(s: LedgerState, t: Seq<u8>, p: Seq<u8>) -> bool {
    &&& s.tenancies.contains_key(t)
    &&& s.tenancies[t].status == TenancyStatus::Active
    &&& s.tenancies[t].property_contract@ == p
}

/// The contract at `p` exists and is closed to new tenants.
pub open spec fn closed(s: LedgerState, p: Seq<u8>) -> bool {
    s.contracts.contains_key(p) && !s.contracts[p].contract_enabled
}

/// Every active tenancy's contract exists and is closed, a contract has at
/// most one active tenancy, and a closed contract has one.
pub open spec fn occupancy_consistent(s: LedgerState) -> bool {
    &&& forall|t: Seq<u8>, p: Seq<u8>| #[trigger] occupies(s, t, p) ==> closed(s, p)
    &&& forall|t1: Seq<u8>, t2: Seq<u8>, p: Seq<u8>|
        #[trigger] occupies(s, t1, p) && #[trigger] occupies(s, t2, p) ==> t1 == t2
    &&& forall|p: Seq<u8>| #[trigger] closed(s, p) ==> exists|t: Seq<u8>| occupies(s, t, p)
}

proof fn lemma_open_keeps_occupancy(s: LedgerState, s1: LedgerState, t: Seq<u8>, p: Seq<u8>, tn: Tenancy)
    requires
        occupancy_consistent(s),
        s.contracts.contains_key(p),
        s.contracts[p].contract_enabled,
        !s.tenancies.contains_key(t),
        tn.status == TenancyStatus::Active,
        tn.property_contract@ == p,
        s1.contracts == s.contracts.insert(p, with_enabled(s.contracts[p], false)),
        s1.tenancies == s.tenancies.insert(t, tn),
    ensures
        occupancy_consistent(s1),
{
    assert forall|u: Seq<u8>, q: Seq<u8>| #[trigger] occupies(s1, u, q) implies closed(s1, q) by {
        if u != t {
            assert(occupies(s, u, q));
            assert(closed(s, q));
        }
    }
    assert forall|u1: Seq<u8>, u2: Seq<u8>, q: Seq<u8>|
        #[trigger] occupies(s1, u1, q) && #[trigger] occupies(s1, u2, q) implies u1 == u2 by {
        if u1 != t {
            assert(occupies(s, u1, q));
            assert(closed(s, q));
        }
        if u2 != t {
            assert(occupies(s, u2, q));
            assert(closed(s, q));
        }
    }
    assert forall|q: Seq<u8>| #[trigger] closed(s1, q) implies exists|u: Seq<u8>| occupies(s1, u, q) by {
        if q == p {
            assert(occupies(s1, t, q));
        } else {
            assert(closed(s, q));
            let u = choose|u: Seq<u8>| occupies(s, u, q);
            assert(occupies(s1, u, q));
        }
    }
}

proof fn lemma_close_keeps_occupancy(s: LedgerState, s1: LedgerState, t: Seq<u8>)
    requires
        occupancy_consistent(s),
        s.tenancies.contains_key(t),
        s.tenancies[t].status == TenancyStatus::Active,
        s1.tenancies == s.tenancies.insert(t, checked_out(s.tenancies[t])),
        s1.contracts == s.contracts.insert(
            s.tenancies[t].property_contract@,
            with_enabled(s.contracts[s.tenancies[t].property_contract@], true),
        ),
    ensures
        occupancy_consistent(s1),
{
    let p = s.tenancies[t].property_contract@;
    assert(occupies(s, t, p));
    assert(closed(s, p));
    assert forall|u: Seq<u8>, q: Seq<u8>| #[trigger] occupies(s1, u, q) implies closed(s1, q) by {
        assert(u != t);
        assert(occupies(s, u, q));
        assert(closed(s, q));
        if q == p {
            assert(occupies(s, t, p) && occupies(s, u, p));
        }
    }
    assert forall|u1: Seq<u8>, u2: Seq<u8>, q: Seq<u8>|
        #[trigger] occupies(s1, u1, q) && #[trigger] occupies(s1, u2, q) implies u1 == u2 by {
        assert(occupies(s, u1, q) && occupies(s, u2, q));
    }
    assert forall|q: Seq<u8>| #[trigger] closed(s1, q) implies exists|u: Seq<u8>| occupies(s1, u, q) by {
        assert(q != p);
        assert(closed(s, q));
        let u = choose|u: Seq<u8>| occupies(s, u, q);
        if u == t {
            assert(occupies(s, t, q));
        }
        assert(occupies(s1, u, q));
    }
}

/// A ledger with no records is consistent in its occupancy.
pub proof fn empty_ledger_occupancy(s: LedgerState)
    requires
        s.contracts.is_empty(),
        s.tenancies.is_empty(),
    ensures
        occupancy_consistent(s),
{
    assert forall|p: Seq<u8>| #[trigger] closed(s, p) implies exists|u: Seq<u8>| occupies(s, u, p) by {
        assert(!s.contracts.contains_key(p));
    }
}

/// Every operation of the engine keeps the occupancy consistent: a contract
/// is closed exactly when one active tenancy refers to it.
pub proof fn operations_keep_occupancy(
    s: LedgerState,
    owner: Address,
    rent_amount: u64,
    security_deposit: u64,
    lease_duration: i64,
    tenant: Address,
    property: Address,
    tenancy: Address,
    now: i64,
    amount: u64,
)
    requires
        occupancy_consistent(s),
    ensures
        occupancy_consistent(
            create_outcome(s, owner, rent_amount, security_deposit, lease_duration, now).0,
        ),
        occupancy_consistent(check_in_outcome(s, tenant, property, now).0),
        occupancy_consistent(check_out_outcome(s, tenant, tenancy).0),
        occupancy_consistent(reserve_outcome(s, tenant, property, now).0),
        occupancy_consistent(end_reservation_outcome(s, tenant, tenancy).0),
        occupancy_consistent(fund_outcome(s, tenant, amount).0),
{
    let s1 = create_outcome(s, owner, rent_amount, security_deposit, lease_duration, now).0;
    if create_outcome(s, owner, rent_amount, security_deposit, lease_duration, now).1 is Ok {
        let a = create_outcome(s, owner, rent_amount, security_deposit, lease_duration, now).1->Ok_0;
        assert forall|u: Seq<u8>, q: Seq<u8>| #[trigger] occupies(s1, u, q) implies closed(s1, q) by {
            assert(occupies(s, u, q));
            assert(closed(s, q));
        }
        assert forall|u1: Seq<u8>, u2: Seq<u8>, q: Seq<u8>|
            #[trigger] occupies(s1, u1, q) && #[trigger] occupies(s1, u2, q) implies u1 == u2 by {
            assert(occupies(s, u1, q) && occupies(s, u2, q));
        }
        assert forall|q: Seq<u8>| #[trigger] closed(s1, q) implies exists|u: Seq<u8>| occupies(s1, u, q) by {
            assert(closed(s, q));
            let u = choose|u: Seq<u8>| occupies(s, u, q);
            assert(occupies(s1, u, q));
        }
    }
    let (s2, r2) = check_in_outcome(s, tenant, property, now);
    if r2 is Ok {
        lemma_open_keeps_occupancy(s, s2, r2->Ok_0, property@, s2.tenancies[r2->Ok_0]);
    }
    let (s3, r3) = check_out_outcome(s, tenant, tenancy);
    if r3 is Ok {
        lemma_close_keeps_occupancy(s, s3, tenancy@);
    }
    let (s4, r4) = reserve_outcome(s, tenant, property, now);
    if r4 is Ok {
        lemma_open_keeps_occupancy(s, s4, r4->Ok_0, property@, s4.tenancies[r4->Ok_0]);
    }
    let (s5, r5) = end_reservation_outcome(s, tenant, tenancy);
    if r5 is Ok {
        lemma_close_keeps_occupancy(s, s5, tenancy@);
    }
    let s6 = fund_outcome(s, tenant, amount).0;
    assert forall|u: Seq<u8>, q: Seq<u8>| #[trigger] occupies(s6, u, q) implies closed(s6, q) by {
        assert(occupies(s, u, q));
    }
    assert forall|u1: Seq<u8>, u2: Seq<u8>, q: Seq<u8>|
        #[trigger] occupies(s6, u1, q) && #[trigger] occupies(s6, u2, q) implies u1 == u2 by {
        assert(occupies(s, u1, q) && occupies(s, u2, q));
    }
    assert forall|q: Seq<u8>| #[trigger] closed(s6, q) implies exists|u: Seq<u8>| occupies(s6, u, q) by {
        assert(closed(s, q));
        let u = choose|u: Seq<u8>| occupies(s, u, q);
        assert(occupies(s6, u, q));
    }
}

} // verus!
