use vstd::prelude::*;
use crate::address::{Address, address_of, lemma_address_of_view};
use crate::derivation::{
    escrow_address, escrow_seeds, program_address, property_address, property_seeds,
    tenancy_address, tenancy_seeds, VaultAuthority,
};
use crate::state::{Holding, PropertyContract, RentalError, Tenancy, TenancyStatus};
use crate::table::Table;

verus! {

/// The records of the ledger, by address, under the program that owns them.
pub struct LedgerState {
    pub program: Seq<u8>,
    pub contracts: Map<Seq<u8>, PropertyContract>,
    pub tenancies: Map<Seq<u8>, Tenancy>,
    pub holdings: Map<Seq<u8>, Holding>,
}

pub open spec fn address_result(r: Result<Address, RentalError>) -> Result<Seq<u8>, RentalError> {
    match r {
        Ok(a) => Ok(a@),
        Err(e) => Err(e),
    }
}

/// What a tenant pays into escrow at check-in: rent plus security deposit.
pub open spec fn total_due(c: PropertyContract) -> int {
    c.rent_amount + c.security_deposit
}

/// The value held at `a`, zero where no holding exists.
pub open spec fn balance(s: LedgerState, a: Seq<u8>) -> nat {
    if s.holdings.contains_key(a) {
        s.holdings[a].balance as nat
    } else {
        0
    }
}

/// The decision of a check-in on the contract's terms alone: refused on a
/// closed contract or when the amount due or the planned check-out leaves
/// its range; else the amount to move into escrow and the planned check-out.
pub open spec fn check_in_terms_spec(c: PropertyContract, now: i64) -> Result<(u64, i64), RentalError> {
    if !c.contract_enabled {
        Err(RentalError::ContractDisabled)
    } else if total_due(c) > u64::MAX || now + c.lease_duration < i64::MIN || now
        + c.lease_duration > i64::MAX {
        Err(RentalError::ArithmeticOverflow)
    } else {
        Ok((total_due(c) as u64, (now + c.lease_duration) as i64))
    }
}

/// The decision of a check-out on the tenancy alone: refused unless the
/// tenancy is active and `tenant` is its tenant.
pub open spec fn check_out_release_spec(tn: Tenancy, tenant: Address) -> Result<(), RentalError> {
    if tn.status != TenancyStatus::Active {
        Err(RentalError::TenancyNotActive)
    } else if tn.tenant@ != tenant@ {
        Err(RentalError::Unauthorized)
    } else {
        Ok(())
    }
}

/// A contract as registered: the given terms, open for a tenant.
pub open spec fn new_contract(
    owner: Address,
    rent_amount: u64,
    security_deposit: u64,
    lease_duration: i64,
    now: i64,
    bump: u8,
) -> PropertyContract {
    PropertyContract {
        owner,
        rent_amount,
        security_deposit,
        lease_duration,
        creation_timestamp: now,
        contract_enabled: true,
        bump,
    }
}

/// A tenancy as it starts: active, checked in at `now`.
pub open spec fn opened_tenancy(
    property: Address,
    tenant: Address,
    now: i64,
    planned: i64,
    escrow: Address,
    bump: u8,
) -> Tenancy {
    Tenancy {
        property_contract: property,
        tenant,
        check_in_timestamp: now,
        planned_checkout: planned,
        status: TenancyStatus::Active,
        escrow_account: escrow,
        bump,
    }
}

/// The contract `c` with its availability flag set to `enabled`.
pub open spec fn with_enabled(c: PropertyContract, enabled: bool) -> PropertyContract {
    PropertyContract { contract_enabled: enabled, ..c }
}

/// The tenancy `tn` checked out, every other field as it was.
pub open spec fn checked_out(tn: Tenancy) -> Tenancy {
    Tenancy { status: TenancyStatus::CheckedOut, ..tn }
}

/// Builds the record of a newly registered contract.
pub fn contract_record(
    owner: &Address,
    rent_amount: u64,
    security_deposit: u64,
    lease_duration: i64,
    now: i64,
    bump: u8,
) -> (r: PropertyContract)
    ensures
        r == new_contract(*owner, rent_amount, security_deposit, lease_duration, now, bump),
{
    PropertyContract {
        owner: *owner,
        rent_amount,
        security_deposit,
        lease_duration,
        creation_timestamp: now,
        contract_enabled: true,
        bump,
    }
}

/// Builds the record of a tenancy that starts at `now`.
pub fn tenancy_record(
    property: &Address,
    tenant: &Address,
    now: i64,
    planned: i64,
    escrow: &Address,
    bump: u8,
) -> (r: Tenancy)
    ensures
        r == opened_tenancy(*property, *tenant, now, planned, *escrow, bump),
{
    Tenancy {
        property_contract: *property,
        tenant: *tenant,
        check_in_timestamp: now,
        planned_checkout: planned,
        status: TenancyStatus::Active,
        escrow_account: *escrow,
        bump,
    }
}

/// The contract `c` closed (`false`) or reopened (`true`) to tenants.
pub fn set_enabled(c: &PropertyContract, enabled: bool) -> (r: PropertyContract)
    ensures
        r == with_enabled(*c, enabled),
{
    PropertyContract { contract_enabled: enabled, ..*c }
}

/// The tenancy `tn` checked out, every other field as it was.
pub fn check_out_tenancy(tn: &Tenancy) -> (r: Tenancy)
    ensures
        r == checked_out(*tn),
{
    Tenancy { status: TenancyStatus::CheckedOut, ..*tn }
}

/// Registering rental terms under the owner's derived contract address.
pub open spec fn create_outcome(
    s: LedgerState,
    owner: Address,
    rent_amount: u64,
    security_deposit: u64,
    lease_duration: i64,
    now: i64,
) -> (LedgerState, Result<Seq<u8>, RentalError>) {
    match program_address(property_seeds(owner@), s.program) {
        None => (s, Err(RentalError::NoViableAddress)),
        Some((a, bump)) => if s.contracts.contains_key(a) {
            (s, Err(RentalError::AlreadyExists))
        } else {
            let c = new_contract(owner, rent_amount, security_deposit, lease_duration, now, bump);
            (LedgerState { contracts: s.contracts.insert(a, c), ..s }, Ok(a))
        },
    }
}

/// Checking in: the rent and deposit move from the tenant's wallet into a
/// fresh escrow vault whose authority is the new tenancy, and the contract
/// closes.
pub open spec fn check_in_outcome(s: LedgerState, tenant: Address, property: Address, now: i64) -> (
    LedgerState,
    Result<Seq<u8>, RentalError>,
) {
    if !s.contracts.contains_key(property@) {
        (s, Err(RentalError::UnknownRecord))
    } else {
        let c = s.contracts[property@];
        match check_in_terms_spec(c, now) {
            Err(err) => (s, Err(err)),
            Ok((total, planned)) => match program_address(tenancy_seeds(property@, tenant@), s.program) {
                None => (s, Err(RentalError::NoViableAddress)),
                Some((t, tbump)) => if s.tenancies.contains_key(address_of(t)@) {
                    (s, Err(RentalError::AlreadyExists))
                } else {
                    match program_address(escrow_seeds(t), s.program) {
                        None => (s, Err(RentalError::NoViableAddress)),
                        Some((e, _ebump)) => if s.holdings.contains_key(address_of(e)@) {
                            (s, Err(RentalError::AlreadyExists))
                        } else if !s.holdings.contains_key(tenant@) {
                            (s, Err(RentalError::InsufficientFunds))
                        } else if s.holdings[tenant@].authority@ != tenant@ {
                            (s, Err(RentalError::Unauthorized))
                        } else if s.holdings[tenant@].balance < total {
                            (s, Err(RentalError::InsufficientFunds))
                        } else {
                            let w = s.holdings[tenant@];
                            let tn = opened_tenancy(property, tenant, now, planned, address_of(e), tbump);
                            let paid = Holding {
                                authority: w.authority,
                                balance: (w.balance - total) as u64,
                            };
                            let vault = Holding {
                                authority: address_of(t),
                                balance: total,
                            };
                            (
                                LedgerState {
                                    program: s.program,
                                    contracts: s.contracts.insert(
                                        property@,
                                        with_enabled(c, false),
                                    ),
                                    tenancies: s.tenancies.insert(address_of(t)@, tn),
                                    holdings: s.holdings.insert(tenant@, paid).insert(address_of(e)@, vault),
                                },
                                Ok(address_of(t)@),
                            )
                        },
                    }
                },
            },
        }
    }
}

/// Checking out: the tenancy ends, the whole vault balance goes back to the
/// tenant under the tenancy's derived authority, and the contract reopens.
/// The rent goes back with the deposit: nothing from the vault reaches the
/// owner, whose settlement of rent, if any, lies outside this engine.
/// A vault that is the tenant's own wallet is refused.
pub open spec fn check_out_outcome(s: LedgerState, tenant: Address, tenancy: Address) -> (
    LedgerState,
    Result<(), RentalError>,
) {
    if !s.tenancies.contains_key(tenancy@) {
        (s, Err(RentalError::UnknownRecord))
    } else {
        let tn = s.tenancies[tenancy@];
        let e = tn.escrow_account@;
        if check_out_release_spec(tn, tenant) is Err {
            (s, Err(check_out_release_spec(tn, tenant)->Err_0))
        } else if !s.contracts.contains_key(tn.property_contract@) || !s.holdings.contains_key(e) {
            (s, Err(RentalError::UnknownRecord))
        } else if s.holdings[e].authority@ != tenancy@ || e == tenant@ {
            (s, Err(RentalError::Unauthorized))
        } else if balance(s, tenant@) + s.holdings[e].balance > u64::MAX {
            (s, Err(RentalError::ArithmeticOverflow))
        } else {
            let v = s.holdings[e];
            let c = s.contracts[tn.property_contract@];
            let credited = if s.holdings.contains_key(tenant@) {
                Holding {
                    authority: s.holdings[tenant@].authority,
                    balance: (s.holdings[tenant@].balance + v.balance) as u64,
                }
            } else {
                Holding { authority: tenant, balance: v.balance }
            };
            (
                LedgerState {
                    program: s.program,
                    contracts: s.contracts.insert(
                        tn.property_contract@,
                        with_enabled(c, true),
                    ),
                    tenancies: s.tenancies.insert(tenancy@, checked_out(tn)),
                    holdings: s.holdings.insert(e, Holding { authority: v.authority, balance: 0 }).insert(
                        tenant@,
                        credited,
                    ),
                },
                Ok(()),
            )
        }
    }
}

/// The all-zero address: the escrow reference of a reservation, which has no vault.
pub open spec fn no_vault() -> Address {
    address_of(Seq::new(32, |i: int| 0u8))
}

fn zero_address() -> (r: Address)
    ensures
        r == no_vault(),
{
    let r = Address { bytes: [0u8; 32] };
    assert(r@ =~= Seq::new(32, |i: int| 0u8));
    proof {
        lemma_address_of_view(r);
    }
    r
}

/// Reserving without custody: the same transitions of the contract and the
/// tenancy as a check-in, with no vault and no value moved.
pub open spec fn reserve_outcome(s: LedgerState, tenant: Address, property: Address, now: i64) -> (
    LedgerState,
    Result<Seq<u8>, RentalError>,
) {
    if !s.contracts.contains_key(property@) {
        (s, Err(RentalError::UnknownRecord))
    } else {
        let c = s.contracts[property@];
        let planned = now + c.lease_duration;
        if !c.contract_enabled {
            (s, Err(RentalError::ContractDisabled))
        } else if planned < i64::MIN || planned > i64::MAX {
            (s, Err(RentalError::ArithmeticOverflow))
        } else {
            match program_address(tenancy_seeds(property@, tenant@), s.program) {
                None => (s, Err(RentalError::NoViableAddress)),
                Some((t, tbump)) => if s.tenancies.contains_key(address_of(t)@) {
                    (s, Err(RentalError::AlreadyExists))
                } else {
                    let tn = opened_tenancy(property, tenant, now, planned as i64, no_vault(), tbump);
                    (
                        LedgerState {
                            contracts: s.contracts.insert(
                                property@,
                                with_enabled(c, false),
                            ),
                            tenancies: s.tenancies.insert(address_of(t)@, tn),
                            ..s
                        },
                        Ok(address_of(t)@),
                    )
                },
            }
        }
    }
}

/// Ending a reservation: the tenancy is checked out, its other fields as
/// they were, and the contract reopens; no value moves.
pub open spec fn end_reservation_outcome(s: LedgerState, tenant: Address, tenancy: Address) -> (
    LedgerState,
    Result<(), RentalError>,
) {
    if !s.tenancies.contains_key(tenancy@) {
        (s, Err(RentalError::UnknownRecord))
    } else {
        let tn = s.tenancies[tenancy@];
        if tn.status != TenancyStatus::Active {
            (s, Err(RentalError::TenancyNotActive))
        } else if tn.tenant@ != tenant@ {
            (s, Err(RentalError::Unauthorized))
        } else if !s.contracts.contains_key(tn.property_contract@) {
            (s, Err(RentalError::UnknownRecord))
        } else {
            let c = s.contracts[tn.property_contract@];
            (
                LedgerState {
                    contracts: s.contracts.insert(
                        tn.property_contract@,
                        with_enabled(c, true),
                    ),
                    tenancies: s.tenancies.insert(tenancy@, checked_out(tn)),
                    ..s
                },
                Ok(()),
            )
        }
    }
}

/// The status query: allowed to the tenant of record or for the tenancy's
/// own property contract.
pub open spec fn status_outcome(s: LedgerState, tenancy: Address, tenant: Address, property: Address) -> Result<
    TenancyStatus,
    RentalError,
> {
    if !s.tenancies.contains_key(tenancy@) || !s.contracts.contains_key(property@) {
        Err(RentalError::UnknownRecord)
    } else if s.tenancies[tenancy@].tenant@ == tenant@ || s.tenancies[tenancy@].property_contract@
        == property@ {
        Ok(s.tenancies[tenancy@].status)
    } else {
        Err(RentalError::Unauthorized)
    }
}

/// Paying value into a wallet from outside the engine.
pub open spec fn fund_outcome(s: LedgerState, wallet: Address, amount: u64) -> (
    LedgerState,
    Result<(), RentalError>,
) {
    if s.holdings.contains_key(wallet@) && s.holdings[wallet@].authority@ != wallet@ {
        (s, Err(RentalError::Unauthorized))
    } else if balance(s, wallet@) + amount > u64::MAX {
        (s, Err(RentalError::ArithmeticOverflow))
    } else {
        let h = Holding { authority: wallet, balance: (balance(s, wallet@) + amount) as u64 };
        (LedgerState { holdings: s.holdings.insert(wallet@, h), ..s }, Ok(()))
    }
}

/// Decides a check-in from the contract's terms: the amount to move from
/// the tenant into escrow and the planned check-out time.
pub fn check_in_terms(c: &PropertyContract, now: i64) -> (r: Result<(u64, i64), RentalError>)
    ensures
        r == check_in_terms_spec(*c, now),
{
    if !c.contract_enabled {
        return Err(RentalError::ContractDisabled);
    }
    let total = match c.rent_amount.checked_add(c.security_deposit) {
        Some(t) => t,
        None => return Err(RentalError::ArithmeticOverflow),
    };
    let planned = match now.checked_add(c.lease_duration) {
        Some(p) => p,
        None => return Err(RentalError::ArithmeticOverflow),
    };
    Ok((total, planned))
}

/// Decides a check-out of the tenancy `tn` stored at `tenancy`: when it is
/// allowed, the authority that signs the release of the whole vault to the
/// tenant.
pub fn check_out_release(tn: &Tenancy, tenancy: &Address, tenant: &Address) -> (r: Result<
    VaultAuthority,
    RentalError,
>)
    ensures
        check_out_release_spec(*tn, *tenant) is Ok <==> r is Ok,
        check_out_release_spec(*tn, *tenant) is Err ==> r == Err::<VaultAuthority, RentalError>(
            check_out_release_spec(*tn, *tenant)->Err_0,
        ),
        r is Ok ==> r->Ok_0.signer() == tenancy@ && r->Ok_0.seeds() == tenancy_seeds(
            tn.property_contract@,
            tn.tenant@,
        ).push(seq![tn.bump]),
{
    if tn.status != TenancyStatus::Active {
        return Err(RentalError::TenancyNotActive);
    }
    if !tn.tenant.same_as(tenant) {
        return Err(RentalError::Unauthorized);
    }
    Ok(VaultAuthority::for_tenancy(*tenancy, tn.property_contract, tn.tenant, tn.bump))
}

/// The rental escrow engine together with the records it keeps.
pub struct Ledger {
    program_id: Address,
    contracts: Table<PropertyContract>,
    tenancies: Table<Tenancy>,
    holdings: Table<Holding>,
}

impl View for Ledger {
    type V = LedgerState;

    closed spec fn view(&self) -> LedgerState {
        LedgerState {
            program: self.program_id@,
            contracts: self.contracts@,
            tenancies: self.tenancies@,
            holdings: self.holdings@,
        }
    }
}

impl Ledger {
    pub closed spec fn wf(&self) -> bool {
        self.contracts.wf() && self.tenancies.wf() && self.holdings.wf()
    }

    /// An empty ledger for the program `program_id`.
    pub fn new(program_id: Address) -> (r: Ledger)
        ensures
            r.wf(),
            r@.program == program_id@,
            r@.contracts == Map::<Seq<u8>, PropertyContract>::empty(),
            r@.tenancies == Map::<Seq<u8>, Tenancy>::empty(),
            r@.holdings == Map::<Seq<u8>, Holding>::empty(),
    {
        Ledger {
            program_id,
            contracts: Table::new(),
            tenancies: Table::new(),
            holdings: Table::new(),
        }
    }

    /// The contract stored at `a`, if any.
    pub fn contract(&self, a: &Address) -> (r: Option<PropertyContract>)
        requires
            self.wf(),
        ensures
            r == (if self@.contracts.contains_key(a@) {
                Some(self@.contracts[a@])
            } else {
                None::<PropertyContract>
            }),
    {
        self.contracts.get(a)
    }

    /// The tenancy stored at `a`, if any.
    pub fn tenancy(&self, a: &Address) -> (r: Option<Tenancy>)
        requires
            self.wf(),
        ensures
            r == (if self@.tenancies.contains_key(a@) {
                Some(self@.tenancies[a@])
            } else {
                None::<Tenancy>
            }),
    {
        self.tenancies.get(a)
    }

    /// The value held at `a`, zero where no holding exists.
    pub fn balance_of(&self, a: &Address) -> (r: u64)
        requires
            self.wf(),
        ensures
            r == balance(self@, a@),
    {
        match self.holdings.get(a) {
            Some(h) => h.balance,
            None => 0,
        }
    }

    /// Pays `amount` into the wallet `wallet`, opening it if needed.
    pub fn fund_wallet(&mut self, wallet: &Address, amount: u64) -> (r: Result<(), RentalError>)
        requires
            old(self).wf(),
        ensures
            final(self).wf(),
            (final(self)@, r) == fund_outcome(old(self)@, *wallet, amount),
    {
        let current: u64 = match self.holdings.get(wallet) {
            Some(h) => {
                if !h.authority.same_as(wallet) {
                    return Err(RentalError::Unauthorized);
                }
                h.balance
            },
            None => 0,
        };
        let total = match current.checked_add(amount) {
            Some(t) => t,
            None => return Err(RentalError::ArithmeticOverflow),
        };
        self.holdings.put(*wallet, Holding { authority: *wallet, balance: total });
        Ok(())
    }

    /// Registers the owner's rental terms under the contract address derived
    /// from the owner, open for a tenant.
    pub fn create_property_contract(
        &mut self,
        owner: &Address,
        rent_amount: u64,
        security_deposit: u64,
        lease_duration: i64,
        now: i64,
    ) -> (r: Result<Address, RentalError>)
        requires
            old(self).wf(),
            rent_amount > 0,
            lease_duration > 0,
        ensures
            final(self).wf(),
            (final(self)@, address_result(r)) == create_outcome(
                old(self)@,
                *owner,
                rent_amount,
                security_deposit,
                lease_duration,
                now,
            ),
    {
        let (a, bump) = match property_address(&self.program_id, owner) {
            Some(found) => found,
            None => return Err(RentalError::NoViableAddress),
        };
        if self.contracts.get(&a).is_some() {
            return Err(RentalError::AlreadyExists);
        }
        let c = contract_record(owner, rent_amount, security_deposit, lease_duration, now, bump);
        self.contracts.put(a, c);
        Ok(a)
    }

    /// Returns the status of a tenancy to its tenant, or to a query that
    /// names the tenancy's property contract.
    pub fn get_tenant_status(&self, tenancy: &Address, tenant: &Address, property: &Address) -> (r:
        Result<TenancyStatus, RentalError>)
        requires
            self.wf(),
        ensures
            r == status_outcome(self@, *tenancy, *tenant, *property),
    {
        let tn = match self.tenancies.get(tenancy) {
            Some(tn) => tn,
            None => return Err(RentalError::UnknownRecord),
        };
        if self.contracts.get(property).is_none() {
            return Err(RentalError::UnknownRecord);
        }
        if tn.tenant.same_as(tenant) || tn.property_contract.same_as(property) {
            Ok(tn.status)
        } else {
            Err(RentalError::Unauthorized)
        }
    }

    /// Checks `tenant` in to the contract at `property`: the rent and the
    /// deposit move from the tenant's wallet into the escrow vault derived
    /// from the new tenancy, the tenancy is recorded as active, and the
    /// contract closes to other tenants. Returns the tenancy's address.
    pub fn tenant_check_in(&mut self, tenant: &Address, property: &Address, now: i64) -> (r: Result<
        Address,
        RentalError,
    >)
        requires
            old(self).wf(),
        ensures
            final(self).wf(),
            (final(self)@, address_result(r)) == check_in_outcome(old(self)@, *tenant, *property, now),
    {
        let c = match self.contracts.get(property) {
            Some(c) => c,
            None => return Err(RentalError::UnknownRecord),
        };
        let (total, planned) = match check_in_terms(&c, now) {
            Ok(terms) => terms,
            Err(err) => return Err(err),
        };
        let (t, tbump) = match tenancy_address(&self.program_id, property, tenant) {
            Some(found) => found,
            None => return Err(RentalError::NoViableAddress),
        };
        if self.tenancies.get(&t).is_some() {
            return Err(RentalError::AlreadyExists);
        }
        let (e, _ebump) = match escrow_address(&self.program_id, &t) {
            Some(found) => found,
            None => return Err(RentalError::NoViableAddress),
        };
        if self.holdings.get(&e).is_some() {
            return Err(RentalError::AlreadyExists);
        }
        let w = match self.holdings.get(tenant) {
            Some(w) => w,
            None => return Err(RentalError::InsufficientFunds),
        };
        if !w.authority.same_as(tenant) {
            return Err(RentalError::Unauthorized);
        }
        if w.balance < total {
            return Err(RentalError::InsufficientFunds);
        }
        self.holdings.put(*tenant, Holding { authority: w.authority, balance: w.balance - total });
        self.holdings.put(e, Holding { authority: t, balance: total });
        let tn = tenancy_record(property, tenant, now, planned, &e, tbump);
        self.tenancies.put(t, tn);
        self.contracts.put(*property, set_enabled(&c, false));
        proof {
            lemma_address_of_view(e);
            lemma_address_of_view(t);
        }
        Ok(t)
    }

    /// Checks the tenant out of the tenancy at `tenancy`: the tenancy ends,
    /// the whole balance of its escrow vault is released to the tenant under
    /// the tenancy's derived authority, and the contract reopens.
    pub fn tenant_check_out(&mut self, tenant: &Address, tenancy: &Address) -> (r: Result<
        (),
        RentalError,
    >)
        requires
            old(self).wf(),
        ensures
            final(self).wf(),
            (final(self)@, r) == check_out_outcome(old(self)@, *tenant, *tenancy),
    {
        let tn = match self.tenancies.get(tenancy) {
            Some(tn) => tn,
            None => return Err(RentalError::UnknownRecord),
        };
        let authority = match check_out_release(&tn, tenancy, tenant) {
            Ok(a) => a,
            Err(err) => return Err(err),
        };
        let c = match self.contracts.get(&tn.property_contract) {
            Some(c) => c,
            None => return Err(RentalError::UnknownRecord),
        };
        let v = match self.holdings.get(&tn.escrow_account) {
            Some(v) => v,
            None => return Err(RentalError::UnknownRecord),
        };
        if !v.authority.same_as(&authority.signer_address()) || tn.escrow_account.same_as(tenant) {
            return Err(RentalError::Unauthorized);
        }
        let credited = match self.holdings.get(tenant) {
            Some(w) => match w.balance.checked_add(v.balance) {
                Some(b) => Holding { authority: w.authority, balance: b },
                None => return Err(RentalError::ArithmeticOverflow),
            },
            None => Holding { authority: *tenant, balance: v.balance },
        };
        self.tenancies.put(*tenancy, check_out_tenancy(&tn));
        self.holdings.put(tn.escrow_account, Holding { authority: v.authority, balance: 0 });
        self.holdings.put(*tenant, credited);
        self.contracts.put(tn.property_contract, set_enabled(&c, true));
        Ok(())
    }

    /// Reserves the contract at `property` for `tenant` without custody of
    /// funds: the tenancy is recorded as active and the contract closes, but
    /// no vault is opened and no value moves.
    pub fn reserve_property(&mut self, tenant: &Address, property: &Address, now: i64) -> (r: Result<
        Address,
        RentalError,
    >)
        requires
            old(self).wf(),
        ensures
            final(self).wf(),
            (final(self)@, address_result(r)) == reserve_outcome(old(self)@, *tenant, *property, now),
    {
        let c = match self.contracts.get(property) {
            Some(c) => c,
            None => return Err(RentalError::UnknownRecord),
        };
        if !c.contract_enabled {
            return Err(RentalError::ContractDisabled);
        }
        let planned = match now.checked_add(c.lease_duration) {
            Some(p) => p,
            None => return Err(RentalError::ArithmeticOverflow),
        };
        let (t, tbump) = match tenancy_address(&self.program_id, property, tenant) {
            Some(found) => found,
            None => return Err(RentalError::NoViableAddress),
        };
        if self.tenancies.get(&t).is_some() {
            return Err(RentalError::AlreadyExists);
        }
        let tn = tenancy_record(property, tenant, now, planned, &zero_address(), tbump);
        self.tenancies.put(t, tn);
        self.contracts.put(*property, set_enabled(&c, false));
        proof {
            lemma_address_of_view(t);
        }
        Ok(t)
    }

    /// Ends a reservation: the tenancy is checked out, its other fields as
    /// they were, and the contract reopens; no value moves.
    pub fn end_reservation(&mut self, tenant: &Address, tenancy: &Address) -> (r: Result<
        (),
        RentalError,
    >)
        requires
            old(self).wf(),
        ensures
            final(self).wf(),
            (final(self)@, r) == end_reservation_outcome(old(self)@, *tenant, *tenancy),
    {
        let tn = match self.tenancies.get(tenancy) {
            Some(tn) => tn,
            None => return Err(RentalError::UnknownRecord),
        };
        if tn.status != TenancyStatus::Active {
            return Err(RentalError::TenancyNotActive);
        }
        if !tn.tenant.same_as(tenant) {
            return Err(RentalError::Unauthorized);
        }
        let c = match self.contracts.get(&tn.property_contract) {
            Some(c) => c,
            None => return Err(RentalError::UnknownRecord),
        };
        self.tenancies.put(*tenancy, check_out_tenancy(&tn));
        self.contracts.put(tn.property_contract, set_enabled(&c, true));
        Ok(())
    }

    pub fn program_id(&self) -> (r: Address)
        ensures
            r@ == self@.program,
    {
        self.program_id
    }
}

} // verus!
