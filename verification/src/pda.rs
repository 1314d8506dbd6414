//! Identities and derived record addresses.
//!
//! Every persistent record of the program is addressed by a 32-byte
//! identifier.  Records created by the program live at *derived* addresses:
//! a deterministic function of a namespace tag, the owning records'
//! addresses and caller-supplied disambiguators, together with a one-byte
//! "bump" chosen so that the derived identifier lies outside the space of
//! valid signing keys.  Re-deriving an address and comparing it against a
//! caller-supplied one is the program's sole defense against a caller
//! substituting an unrelated but structurally similar record.

use vstd::prelude::*;

verus! {

/// A 32-byte record address (or signer identity).
#[derive(Clone, Copy, Eq, Debug)]
pub struct Addr {
    pub bytes: [u8; 32],
}

impl View for Addr {
    type V = Seq<u8>;

    open spec fn view(&self) -> Seq<u8> {
        self.bytes@
    }
}

impl PartialEq for Addr {
    fn eq(&self, other: &Addr) -> (r: bool) {
        let mut i: usize = 0;
        while i < 32
            invariant
                i <= 32,
                forall|j: int| 0 <= j < i ==> self.bytes@[j] == other.bytes@[j],
            decreases 32 - i,
        {
            if self.bytes[i] != other.bytes[i] {
                return false;
            }
            i += 1;
        }
        proof {
            assert(self.bytes@ =~= other.bytes@);
        }
        true
    }
}

impl vstd::std_specs::cmp::PartialEqSpecImpl for Addr {
    open spec fn obeys_eq_spec() -> bool {
        true
    }

    open spec fn eq_spec(&self, other: &Addr) -> bool {
        self@ == other@
    }
}

impl Addr {
    /// The address as a fresh byte vector, for use as a derivation seed.
    pub fn to_seed(&self) -> (r: Vec<u8>)
        ensures
            r@ == self@,
    {
        let mut v: Vec<u8> = Vec::new();
        let mut i: usize = 0;
        while i < 32
            invariant
                i <= 32,
                v@ =~= self.bytes@.subrange(0, i as int),
            decreases 32 - i,
        {
            v.push(self.bytes[i]);
            i += 1;
        }
        proof {
            assert(v@ =~= self.bytes@);
        }
        v
    }
}


// ---------------------------------------------------------------------------
// Derived addresses
// ---------------------------------------------------------------------------

/// What the host's program-derived-address search returns for a seed list and
/// a program identifier: the canonical derived address together with the
/// disambiguation byte ("bump") chosen for it, or nothing when no valid bump
/// exists or a seed breaks the host's length limits.  The result is a
/// function of the seeds and the program identifier alone.
pub uninterp spec fn pda_result(seeds: Seq<Seq<u8>>, program: Seq<u8>) -> Option<(Seq<u8>, u8)>;

/// Holds exactly when `addr` with `bump` is the canonical derived address of
/// `seeds` under `program`.
pub open spec fn pda_matches(seeds: Seq<Seq<u8>>, program: Seq<u8>, addr: Seq<u8>, bump: u8) -> bool {
    pda_result(seeds, program) == Some((addr, bump))
}

/// Holds exactly when a canonical derived address exists for `seeds` under
/// `program` and is `addr`, whatever its bump.
pub open spec fn pda_addr_matches(seeds: Seq<Seq<u8>>, program: Seq<u8>, addr: Seq<u8>) -> bool {
    match pda_result(seeds, program) {
        Some(p) => p.0 == addr,
        None => false,
    }
}

/// Relies on solana_program::pubkey::Pubkey::try_find_program_address: it
/// deterministically derives the canonical program address and bump for the
/// given seeds, returning None when no bump yields a valid address or when a
/// seed exceeds the host's limits.
#[verifier::external_body]
pub(crate) fn find_pda(seeds: &Vec<Vec<u8>>, program: &Addr) -> (r: Option<(Addr, u8)>)
    ensures
        match r {
            Some(p) => pda_result(seeds.deep_view(), program@) == Some((p.0@, p.1)),
            None => pda_result(seeds.deep_view(), program@) is None,
        },
{
    let refs: Vec<&[u8]> = seeds.iter().map(|s| s.as_slice()).collect();
    let program_id = solana_program::pubkey::Pubkey::new_from_array(program.bytes);
    solana_program::pubkey::Pubkey::try_find_program_address(&refs, &program_id)
        .map(|(key, bump)| (Addr { bytes: key.to_bytes() }, bump))
}

/// Re-derives the address for `seeds` and reports whether it matches a
/// caller-supplied address and disambiguation byte.
pub fn check_pda(seeds: &Vec<Vec<u8>>, program: &Addr, expected: &Addr, expected_bump: u8) -> (r: bool)
    ensures
        r == pda_matches(seeds.deep_view(), program@, expected@, expected_bump),
{
    match find_pda(seeds, program) {
        Some(p) => {
            let ok = p.0 == *expected && p.1 == expected_bump;
            proof {
                if ok {
                    assert(pda_result(seeds.deep_view(), program@) == Some((expected@, expected_bump)));
                }
            }
            ok
        },
        None => false,
    }
}

// ---------------------------------------------------------------------------
// Seed lists
// ---------------------------------------------------------------------------

/// A two-part seed list.
pub fn seeds2(a: Vec<u8>, b: Vec<u8>) -> (r: Vec<Vec<u8>>)
    ensures
        r.deep_view() == seq![a@, b@],
{
    let mut v: Vec<Vec<u8>> = Vec::new();
    v.push(a);
    v.push(b);
    proof {
        assert(v.deep_view() =~~= seq![a@, b@]);
    }
    v
}

/// A three-part seed list.
pub fn seeds3(a: Vec<u8>, b: Vec<u8>, c: Vec<u8>) -> (r: Vec<Vec<u8>>)
    ensures
        r.deep_view() == seq![a@, b@, c@],
{
    let mut v: Vec<Vec<u8>> = Vec::new();
    v.push(a);
    v.push(b);
    v.push(c);
    proof {
        assert(v.deep_view() =~~= seq![a@, b@, c@]);
    }
    v
}

/// A four-part seed list.
pub fn seeds4(a: Vec<u8>, b: Vec<u8>, c: Vec<u8>, d: Vec<u8>) -> (r: Vec<Vec<u8>>)
    ensures
        r.deep_view() == seq![a@, b@, c@, d@],
{
    let mut v: Vec<Vec<u8>> = Vec::new();
    v.push(a);
    v.push(b);
    v.push(c);
    v.push(d);
    proof {
        assert(v.deep_view() =~~= seq![a@, b@, c@, d@]);
    }
    v
}

/// A fresh copy of a byte vector, for reusing one disambiguator in several
/// seed lists.
pub fn clone_bytes(src: &Vec<u8>) -> (r: Vec<u8>)
    ensures
        r@ == src@,
{
    let mut v: Vec<u8> = Vec::new();
    let mut i: usize = 0;
    while i < src.len()
        invariant
            i <= src.len(),
            v@ =~= src@.subrange(0, i as int),
        decreases src.len() - i,
    {
        v.push(src[i]);
        i += 1;
    }
    proof {
        assert(v@ =~= src@);
    }
    v
}

// ---------------------------------------------------------------------------
// The seed lists of the program's records
// ---------------------------------------------------------------------------

/// Seeds of an event addressed by a base key and a free-text disambiguator.
pub open spec fn event_seeds(base: Seq<u8>, event_id: Seq<u8>) -> Seq<Seq<u8>> {
    seq![event_tag(), base, event_id]
}

/// Seeds of an event addressed by its free-text disambiguator alone.
pub open spec fn event_seeds_by_id(event_id: Seq<u8>) -> Seq<Seq<u8>> {
    seq![event_tag(), event_id]
}

/// Seeds of an event addressed by its base key alone.
pub open spec fn event_seeds_by_base(base: Seq<u8>) -> Seq<Seq<u8>> {
    seq![event_tag(), base]
}

/// Seeds of an event's value vault.
pub open spec fn event_vault_seeds(event: Seq<u8>) -> Seq<Seq<u8>> {
    seq![event_vault_tag(), event]
}

/// Seeds of an event's collection-representative mint.
pub open spec fn event_mint_seeds(event: Seq<u8>) -> Seq<Seq<u8>> {
    seq![event_mint_tag(), event]
}

/// Seeds of the vault holding an event's collection-representative unit.
pub open spec fn event_collection_vault_seeds(event: Seq<u8>) -> Seq<Seq<u8>> {
    seq![event_collection_vault_tag(), event]
}

/// Seeds of a collaborator record of an event.
pub open spec fn collaborator_seeds(event: Seq<u8>, base: Seq<u8>) -> Seq<Seq<u8>> {
    seq![collaborator_tag(), event, base]
}

/// Seeds of an event's ticket counter record (base-key addressing).
pub open spec fn event_ticket_seeds(event: Seq<u8>, base: Seq<u8>) -> Seq<Seq<u8>> {
    seq![event_ticket_tag(), event, base]
}

/// Seeds of a ticket machine of an event.
pub open spec fn ticket_machine_seeds(event: Seq<u8>, ticket_id: Seq<u8>) -> Seq<Seq<u8>> {
    seq![ticket_machine_tag(), event, ticket_id]
}

/// Seeds of a ticket mint scoped to an event's ticket counter record.
pub open spec fn ticket_mint_seeds2(event: Seq<u8>, event_ticket: Seq<u8>) -> Seq<Seq<u8>> {
    seq![ticket_mint_tag(), event, event_ticket]
}

/// Seeds of a ticket mint scoped to a ticket machine, per disambiguator.
pub open spec fn ticket_mint_seeds3(
    event: Seq<u8>,
    machine: Seq<u8>,
    disambiguator: Seq<u8>,
) -> Seq<Seq<u8>> {
    seq![ticket_mint_tag(), event, machine, disambiguator]
}

/// Seeds of a ticket record, addressed by its mint.
pub open spec fn ticket_seeds(ticket_mint: Seq<u8>) -> Seq<Seq<u8>> {
    seq![ticket_tag(), ticket_mint]
}

/// Seeds of an event's attendance-proof mint.
pub open spec fn attendance_mint_seeds(event: Seq<u8>, event_ticket: Seq<u8>) -> Seq<Seq<u8>> {
    seq![attendance_mint_tag(), event, event_ticket]
}

/// Seeds of a unit's metadata record, under the metadata program.
pub open spec fn metadata_seeds(metadata_program: Seq<u8>, mint: Seq<u8>) -> Seq<Seq<u8>> {
    seq![metadata_tag(), metadata_program, mint]
}

/// Seeds of a unit's master-edition record, under the metadata program.
pub open spec fn master_edition_seeds(metadata_program: Seq<u8>, mint: Seq<u8>) -> Seq<Seq<u8>> {
    seq![metadata_tag(), metadata_program, mint, edition_tag()]
}

/// Seeds of a wallet's associated holding record for a unit, under the
/// associated-token program.
pub open spec fn associated_token_seeds(
    wallet: Seq<u8>,
    token_program: Seq<u8>,
    mint: Seq<u8>,
) -> Seq<Seq<u8>> {
    seq![wallet, token_program, mint]
}

// ---------------------------------------------------------------------------
// Namespace tags
// ---------------------------------------------------------------------------

/// The namespace tag `"event"` as a byte sequence.
pub open spec fn event_tag() -> Seq<u8> {
    seq![101u8, 118u8, 101u8, 110u8, 116u8]
}

/// The namespace tag `"event"` as a byte vector.
pub fn event_tag_bytes() -> (r: Vec<u8>)
    ensures
        r@ == event_tag(),
{
    let mut v: Vec<u8> = Vec::new();
    v.push(101);
    v.push(118);
    v.push(101);
    v.push(110);
    v.push(116);
    proof {
        assert(v@ =~= event_tag());
    }
    v
}

/// The namespace tag `"event_vault"` as a byte sequence.
pub open spec fn event_vault_tag() -> Seq<u8> {
    seq![101u8, 118u8, 101u8, 110u8, 116u8, 95u8, 118u8, 97u8, 117u8, 108u8, 116u8]
}

/// The namespace tag `"event_vault"` as a byte vector.
pub fn event_vault_tag_bytes() -> (r: Vec<u8>)
    ensures
        r@ == event_vault_tag(),
{
    let mut v: Vec<u8> = Vec::new();
    v.push(101);
    v.push(118);
    v.push(101);
    v.push(110);
    v.push(116);
    v.push(95);
    v.push(118);
    v.push(97);
    v.push(117);
    v.push(108);
    v.push(116);
    proof {
        assert(v@ =~= event_vault_tag());
    }
    v
}

/// The namespace tag `"event_mint"` as a byte sequence.
pub open spec fn event_mint_tag() -> Seq<u8> {
    seq![101u8, 118u8, 101u8, 110u8, 116u8, 95u8, 109u8, 105u8, 110u8, 116u8]
}

/// The namespace tag `"event_mint"` as a byte vector.
pub fn event_mint_tag_bytes() -> (r: Vec<u8>)
    ensures
        r@ == event_mint_tag(),
{
    let mut v: Vec<u8> = Vec::new();
    v.push(101);
    v.push(118);
    v.push(101);
    v.push(110);
    v.push(116);
    v.push(95);
    v.push(109);
    v.push(105);
    v.push(110);
    v.push(116);
    proof {
        assert(v@ =~= event_mint_tag());
    }
    v
}

/// The namespace tag `"event_collection_vault"` as a byte sequence.
pub open spec fn event_collection_vault_tag() -> Seq<u8> {
    seq![101u8, 118u8, 101u8, 110u8, 116u8, 95u8, 99u8, 111u8, 108u8, 108u8, 101u8, 99u8, 116u8, 105u8, 111u8, 110u8, 95u8, 118u8, 97u8, 117u8, 108u8, 116u8]
}

/// The namespace tag `"event_collection_vault"` as a byte vector.
pub fn event_collection_vault_tag_bytes() -> (r: Vec<u8>)
    ensures
        r@ == event_collection_vault_tag(),
{
    let mut v: Vec<u8> = Vec::new();
    v.push(101);
    v.push(118);
    v.push(101);
    v.push(110);
    v.push(116);
    v.push(95);
    v.push(99);
    v.push(111);
    v.push(108);
    v.push(108);
    v.push(101);
    v.push(99);
    v.push(116);
    v.push(105);
    v.push(111);
    v.push(110);
    v.push(95);
    v.push(118);
    v.push(97);
    v.push(117);
    v.push(108);
    v.push(116);
    proof {
        assert(v@ =~= event_collection_vault_tag());
    }
    v
}

/// The namespace tag `"collaborator"` as a byte sequence.
pub open spec fn collaborator_tag() -> Seq<u8> {
    seq![99u8, 111u8, 108u8, 108u8, 97u8, 98u8, 111u8, 114u8, 97u8, 116u8, 111u8, 114u8]
}

/// The namespace tag `"collaborator"` as a byte vector.
pub fn collaborator_tag_bytes() -> (r: Vec<u8>)
    ensures
        r@ == collaborator_tag(),
{
    let mut v: Vec<u8> = Vec::new();
    v.push(99);
    v.push(111);
    v.push(108);
    v.push(108);
    v.push(97);
    v.push(98);
    v.push(111);
    v.push(114);
    v.push(97);
    v.push(116);
    v.push(111);
    v.push(114);
    proof {
        assert(v@ =~= collaborator_tag());
    }
    v
}

/// The namespace tag `"event_ticket"` as a byte sequence.
pub open spec fn event_ticket_tag() -> Seq<u8> {
    seq![101u8, 118u8, 101u8, 110u8, 116u8, 95u8, 116u8, 105u8, 99u8, 107u8, 101u8, 116u8]
}

/// The namespace tag `"event_ticket"` as a byte vector.
pub fn event_ticket_tag_bytes() -> (r: Vec<u8>)
    ensures
        r@ == event_ticket_tag(),
{
    let mut v: Vec<u8> = Vec::new();
    v.push(101);
    v.push(118);
    v.push(101);
    v.push(110);
    v.push(116);
    v.push(95);
    v.push(116);
    v.push(105);
    v.push(99);
    v.push(107);
    v.push(101);
    v.push(116);
    proof {
        assert(v@ =~= event_ticket_tag());
    }
    v
}

/// The namespace tag `"ticket_machine"` as a byte sequence.
pub open spec fn ticket_machine_tag() -> Seq<u8> {
    seq![116u8, 105u8, 99u8, 107u8, 101u8, 116u8, 95u8, 109u8, 97u8, 99u8, 104u8, 105u8, 110u8, 101u8]
}

/// The namespace tag `"ticket_machine"` as a byte vector.
pub fn ticket_machine_tag_bytes() -> (r: Vec<u8>)
    ensures
        r@ == ticket_machine_tag(),
{
    let mut v: Vec<u8> = Vec::new();
    v.push(116);
    v.push(105);
    v.push(99);
    v.push(107);
    v.push(101);
    v.push(116);
    v.push(95);
    v.push(109);
    v.push(97);
    v.push(99);
    v.push(104);
    v.push(105);
    v.push(110);
    v.push(101);
    proof {
        assert(v@ =~= ticket_machine_tag());
    }
    v
}

/// The namespace tag `"ticket_mint"` as a byte sequence.
pub open spec fn ticket_mint_tag() -> Seq<u8> {
    seq![116u8, 105u8, 99u8, 107u8, 101u8, 116u8, 95u8, 109u8, 105u8, 110u8, 116u8]
}

/// The namespace tag `"ticket_mint"` as a byte vector.
pub fn ticket_mint_tag_bytes() -> (r: Vec<u8>)
    ensures
        r@ == ticket_mint_tag(),
{
    let mut v: Vec<u8> = Vec::new();
    v.push(116);
    v.push(105);
    v.push(99);
    v.push(107);
    v.push(101);
    v.push(116);
    v.push(95);
    v.push(109);
    v.push(105);
    v.push(110);
    v.push(116);
    proof {
        assert(v@ =~= ticket_mint_tag());
    }
    v
}

/// The namespace tag `"ticket"` as a byte sequence.
pub open spec fn ticket_tag() -> Seq<u8> {
    seq![116u8, 105u8, 99u8, 107u8, 101u8, 116u8]
}

/// The namespace tag `"ticket"` as a byte vector.
pub fn ticket_tag_bytes() -> (r: Vec<u8>)
    ensures
        r@ == ticket_tag(),
{
    let mut v: Vec<u8> = Vec::new();
    v.push(116);
    v.push(105);
    v.push(99);
    v.push(107);
    v.push(101);
    v.push(116);
    proof {
        assert(v@ =~= ticket_tag());
    }
    v
}

/// The namespace tag `"attendance_mint"` as a byte sequence.
pub open spec fn attendance_mint_tag() -> Seq<u8> {
    seq![97u8, 116u8, 116u8, 101u8, 110u8, 100u8, 97u8, 110u8, 99u8, 101u8, 95u8, 109u8, 105u8, 110u8, 116u8]
}

/// The namespace tag `"attendance_mint"` as a byte vector.
pub fn attendance_mint_tag_bytes() -> (r: Vec<u8>)
    ensures
        r@ == attendance_mint_tag(),
{
    let mut v: Vec<u8> = Vec::new();
    v.push(97);
    v.push(116);
    v.push(116);
    v.push(101);
    v.push(110);
    v.push(100);
    v.push(97);
    v.push(110);
    v.push(99);
    v.push(101);
    v.push(95);
    v.push(109);
    v.push(105);
    v.push(110);
    v.push(116);
    proof {
        assert(v@ =~= attendance_mint_tag());
    }
    v
}

/// The namespace tag `"metadata"` as a byte sequence.
pub open spec fn metadata_tag() -> Seq<u8> {
    seq![109u8, 101u8, 116u8, 97u8, 100u8, 97u8, 116u8, 97u8]
}

/// The namespace tag `"metadata"` as a byte vector.
pub fn metadata_tag_bytes() -> (r: Vec<u8>)
    ensures
        r@ == metadata_tag(),
{
    let mut v: Vec<u8> = Vec::new();
    v.push(109);
    v.push(101);
    v.push(116);
    v.push(97);
    v.push(100);
    v.push(97);
    v.push(116);
    v.push(97);
    proof {
        assert(v@ =~= metadata_tag());
    }
    v
}

/// The namespace tag `"edition"` as a byte sequence.
pub open spec fn edition_tag() -> Seq<u8> {
    seq![101u8, 100u8, 105u8, 116u8, 105u8, 111u8, 110u8]
}

/// The namespace tag `"edition"` as a byte vector.
pub fn edition_tag_bytes() -> (r: Vec<u8>)
    ensures
        r@ == edition_tag(),
{
    let mut v: Vec<u8> = Vec::new();
    v.push(101);
    v.push(100);
    v.push(105);
    v.push(116);
    v.push(105);
    v.push(111);
    v.push(110);
    proof {
        assert(v@ =~= edition_tag());
    }
    v
}

} // verus!
