use vstd::prelude::*;
use crate::address::Address;

verus! {

/// The program-derived address and bump that the ledger's derivation scheme
/// assigns to a list of seeds under a program id, if any bump yields one.
pub uninterp spec fn program_address(seeds: Seq<Seq<u8>>, program: Seq<u8>) -> Option<(Seq<u8>, u8)>;

/// The byte sequences of a list of seeds.
pub open spec fn seeds_view(seeds: Seq<Vec<u8>>) -> Seq<Seq<u8>> {
    seeds.map_values(|s: Vec<u8>| s@)
}

/// A derivation result, with the address as its bytes.
pub open spec fn found_view(r: Option<(Address, u8)>) -> Option<(Seq<u8>, u8)> {
    match r {
        Some((a, bump)) => Some((a@, bump)),
        None => None,
    }
}

/// Relies on `Pubkey::try_find_program_address` (anchor_lang, from
/// solana-program): a pure function of the seeds and the program id; it
/// gives `None` when there are sixteen seeds or more, since the bump seed
/// would exceed the limit of sixteen.
#[verifier::external_body]
fn find_address(seeds: &Vec<Vec<u8>>, program: &Address) -> (r: Option<(Address, u8)>)
    ensures
        found_view(r) == program_address(seeds_view(seeds@), program@),
        seeds@.len() >= 16 ==> r is None,
{
    let parts: Vec<&[u8]> = seeds.iter().map(|s| s.as_slice()).collect();
    let program_key = anchor_lang::prelude::Pubkey::new_from_array(program.bytes);
    match anchor_lang::prelude::Pubkey::try_find_program_address(&parts, &program_key) {
        Some((key, bump)) => Some((Address { bytes: key.to_bytes() }, bump)),
        None => None,
    }
}

/// The ASCII bytes of `property`.
pub open spec fn property_tag() -> Seq<u8> {
    seq![112u8, 114, 111, 112, 101, 114, 116, 121]
}

/// The ASCII bytes of `tenancy`.
pub open spec fn tenancy_tag() -> Seq<u8> {
    seq![116u8, 101, 110, 97, 110, 99, 121]
}

/// The ASCII bytes of `escrow`.
pub open spec fn escrow_tag() -> Seq<u8> {
    seq![101u8, 115, 99, 114, 111, 119]
}

/// Seeds of an owner's property contract: one contract per owner.
pub open spec fn property_seeds(owner: Seq<u8>) -> Seq<Seq<u8>> {
    seq![property_tag(), owner]
}

/// Seeds of the tenancy of `tenant` under a property contract.
pub open spec fn tenancy_seeds(property: Seq<u8>, tenant: Seq<u8>) -> Seq<Seq<u8>> {
    seq![tenancy_tag(), property, tenant]
}

/// Seeds of the escrow vault that belongs to a tenancy.
pub open spec fn escrow_seeds(tenancy: Seq<u8>) -> Seq<Seq<u8>> {
    seq![escrow_tag(), tenancy]
}

fn property_tag_bytes() -> (r: Vec<u8>)
    ensures
        r@ == property_tag(),
{
    let r: Vec<u8> = vec![112u8, 114, 111, 112, 101, 114, 116, 121];
    assert(r@ =~= property_tag());
    r
}

fn tenancy_tag_bytes() -> (r: Vec<u8>)
    ensures
        r@ == tenancy_tag(),
{
    let r: Vec<u8> = vec![116u8, 101, 110, 97, 110, 99, 121];
    assert(r@ =~= tenancy_tag());
    r
}

fn escrow_tag_bytes() -> (r: Vec<u8>)
    ensures
        r@ == escrow_tag(),
{
    let r: Vec<u8> = vec![101u8, 115, 99, 114, 111, 119];
    assert(r@ =~= escrow_tag());
    r
}

fn bytes_of(a: &Address) -> (r: Vec<u8>)
    ensures
        r@ == a@,
{
    let mut v: Vec<u8> = Vec::new();
    let mut i: usize = 0;
    while i < 32
        invariant
            0 <= i <= 32,
            a.bytes@.len() == 32,
            v@ == a.bytes@.subrange(0, i as int),
        decreases 32 - i,
    {
        v.push(a.bytes[i]);
        i = i + 1;
    }
    assert(v@ =~= a.bytes@);
    v
}

pub fn property_address(program: &Address, owner: &Address) -> (r: Option<(Address, u8)>)
    ensures
        found_view(r) == program_address(property_seeds(owner@), program@),
{
    let seeds: Vec<Vec<u8>> = vec![property_tag_bytes(), bytes_of(owner)];
    assert(seeds_view(seeds@) =~= property_seeds(owner@));
    find_address(&seeds, program)
}

pub fn tenancy_address(program: &Address, property: &Address, tenant: &Address) -> (r: Option<(Address, u8)>)
    ensures
        found_view(r) == program_address(tenancy_seeds(property@, tenant@), program@),
{
    let seeds: Vec<Vec<u8>> = vec![
        tenancy_tag_bytes(),
        bytes_of(property),
        bytes_of(tenant),
    ];
    assert(seeds_view(seeds@) =~= tenancy_seeds(property@, tenant@));
    find_address(&seeds, program)
}

pub fn escrow_address(program: &Address, tenancy: &Address) -> (r: Option<(Address, u8)>)
    ensures
        found_view(r) == program_address(escrow_seeds(tenancy@), program@),
{
    let seeds: Vec<Vec<u8>> = vec![escrow_tag_bytes(), bytes_of(tenancy)];
    assert(seeds_view(seeds@) =~= escrow_seeds(tenancy@));
    find_address(&seeds, program)
}

/// The engine's signing capability over the escrow vault of one tenancy: the
/// tenancy's derived address with the seeds and bump that derive it, so that
/// a release from the vault is authorised without any private key. Only this
/// crate constructs one.
#[derive(Clone, Copy, Debug)]
pub struct VaultAuthority {
    tenancy: Address,
    property: Address,
    tenant: Address,
    bump: u8,
}

impl VaultAuthority {
    /// The address that signs: the tenancy's own.
    pub closed spec fn signer(&self) -> Seq<u8> {
        self.tenancy@
    }

    /// The seeds that derive the signer, the bump last.
    pub closed spec fn seeds(&self) -> Seq<Seq<u8>> {
        tenancy_seeds(self.property@, self.tenant@).push(seq![self.bump])
    }

    pub(crate) fn for_tenancy(tenancy: Address, property: Address, tenant: Address, bump: u8) -> (r:
        VaultAuthority)
        ensures
            r.signer() == tenancy@,
            r.seeds() == tenancy_seeds(property@, tenant@).push(seq![bump]),
    {
        VaultAuthority { tenancy, property, tenant, bump }
    }

    pub fn signer_address(&self) -> (r: Address)
        ensures
            r@ == self.signer(),
    {
        self.tenancy
    }

    /// The seeds to present when signing as the vault's authority.
    pub fn signer_seeds(&self) -> (r: Vec<Vec<u8>>)
        ensures
            seeds_view(r@) == self.seeds(),
    {
        let r: Vec<Vec<u8>> = vec![
            tenancy_tag_bytes(),
            bytes_of(&self.property),
            bytes_of(&self.tenant),
            vec![self.bump],
        ];
        assert(r@[3]@ =~= seq![self.bump]);
        assert(seeds_view(r@) =~= self.seeds());
        r
    }
}

} // verus!
