//! Helpers over raw record bytes: the discriminator test and the byte
//! codec of the fixed-width records.
//!
//! Every persisted record begins with an eight-byte record-type
//! discriminator; the fields follow in order, integers little-endian,
//! flags as one byte.  The deserializers here are "unchecked" in that they
//! skip the discriminator instead of testing it, as the program's raw
//! record reads do; bytes beyond a record's fields are padding and are
//! ignored.  The records whose fields carry free text are not parsed here:
//! their text fields would need the host's text validation.

use vstd::prelude::*;
use crate::collections::{Collaborator, Event, Ticket};
use crate::errors::Error;
use crate::pda::Addr;
use crate::EventTicket;

verus! {

/// Whether a record's leading eight-byte type discriminator is set, i.e.
/// not zero.  A freshly allocated record is all zeroes, so this is how the
/// program tells an occupied record location from a vacant one.
pub open spec fn discriminator_set(data: Seq<u8>) -> bool {
    exists|i: int| 0 <= i < 8 && data[i] != 0
}

/// Reports whether the record bytes at a location already carry a type
/// discriminator.
pub fn is_discriminator_already_set(data: &[u8]) -> (r: bool)
    requires
        data@.len() >= 8,
    ensures
        r == discriminator_set(data@),
{
    let mut i: usize = 0;
    while i < 8
        invariant
            i <= 8,
            data@.len() >= 8,
            forall|j: int| 0 <= j < i ==> data@[j] == 0,
        decreases 8 - i,
    {
        if data[i] != 0 {
            return true;
        }
        i += 1;
    }
    false
}

// ------------------------------------------------------------------------
// Primitive pieces of the layout
// ------------------------------------------------------------------------

/// The little-endian 32-bit value whose four bytes start at offset `i`.
pub open spec fn le32_at(data: Seq<u8>, i: int) -> int
    recommends
        0 <= i,
        i + 4 <= data.len(),
{
    data[i] + 256 * (data[i + 1] + 256 * (data[i + 2] + 256 * data[i + 3]))
}

/// The four little-endian bytes of a 32-bit value.
pub open spec fn le32_bytes(x: u32) -> Seq<u8> {
    seq![
        (x % 256) as u8,
        ((x / 256) % 256) as u8,
        ((x / 65536) % 256) as u8,
        (x / 16777216) as u8,
    ]
}

/// The one-byte encoding of a flag.
pub open spec fn flag_byte(b: bool) -> u8 {
    if b {
        1u8
    } else {
        0u8
    }
}

/// Decomposing a 32-bit value into its four little-endian bytes and
/// reassembling them is the identity.
pub proof fn lemma_le32_identity(x: u32)
    ensures
        (x % 256) + 256 * (((x / 256) % 256) + 256 * (((x / 65536) % 256) + 256 * (x
            / 16777216))) == x,
{
    assert((x % 256) + 256 * (((x / 256) % 256) + 256 * (((x / 65536) % 256) + 256 * (x
        / 16777216))) == x) by (bit_vector);
}

/// Reads the little-endian 32-bit value at offset `i`.
fn read_le32(data: &[u8], i: usize) -> (r: u32)
    requires
        i + 4 <= data@.len(),
    ensures
        r == le32_at(data@, i as int),
{
    (data[i] as u32) + 256 * (data[i + 1] as u32) + 65536 * (data[i + 2] as u32) + 16777216 * (
    data[i + 3] as u32)
}

/// Reads the 32-byte address at offset `i`.
fn read_addr(data: &[u8], i: usize) -> (r: Addr)
    requires
        i + 32 <= data@.len(),
    ensures
        r@ == data@.subrange(i as int, i as int + 32),
{
    let n: usize = data.len();
    let mut bytes = [0u8; 32];
    let mut j: usize = 0;
    while j < 32
        invariant
            j <= 32,
            i + 32 <= n,
            n == data@.len(),
            forall|k: int| 0 <= k < j ==> bytes@[k] == data@[i + k],
        decreases 32 - j,
    {
        bytes[j] = data[i + j];
        j += 1;
    }
    let r = Addr { bytes };
    proof {
        assert(r@ =~= data@.subrange(i as int, i as int + 32));
    }
    r
}

/// Appends the four little-endian bytes of `x`.
fn push_le32(v: &mut Vec<u8>, x: u32)
    ensures
        final(v)@ == old(v)@ + le32_bytes(x),
{
    v.push((x % 256) as u8);
    v.push(((x / 256) % 256) as u8);
    v.push(((x / 65536) % 256) as u8);
    v.push((x / 16777216) as u8);
    proof {
        assert(v@ =~= old(v)@ + le32_bytes(x));
    }
}

/// Appends the 32 bytes of an address.
fn push_addr(v: &mut Vec<u8>, a: &Addr)
    ensures
        final(v)@ == old(v)@ + a@,
{
    let mut j: usize = 0;
    while j < 32
        invariant
            j <= 32,
            v@ =~= old(v)@ + a@.subrange(0, j as int),
        decreases 32 - j,
    {
        v.push(a.bytes[j]);
        j += 1;
    }
    proof {
        assert(v@ =~= old(v)@ + a@);
    }
}

// ------------------------------------------------------------------------
// Collaborator
// ------------------------------------------------------------------------

/// Whether record bytes parse as a collaborator record.
pub open spec fn collaborator_bytes_valid(data: Seq<u8>) -> bool {
    data.len() >= 9
}

/// The field bytes of a collaborator record, after the discriminator.
pub open spec fn collaborator_body(c: Collaborator) -> Seq<u8> {
    seq![c.bump]
}

/// Serializes a collaborator record's fields.
pub fn serialize_collaborator_body(c: &Collaborator) -> (r: Vec<u8>)
    ensures
        r@ == collaborator_body(*c),
{
    let mut v: Vec<u8> = Vec::new();
    v.push(c.bump);
    proof {
        assert(v@ =~= collaborator_body(*c));
    }
    v
}

/// Parses a collaborator record from its raw bytes, skipping the
/// discriminator.
pub fn try_deserialize_collaborator_unchecked(data: &[u8]) -> (r: Result<Collaborator, Error>)
    ensures
        match r {
            Ok(c) => collaborator_bytes_valid(data@) && c.bump == data@[8],
            Err(e) => !collaborator_bytes_valid(data@) && e == Error::AccountDidNotDeserialize,
        },
{
    if data.len() < 9 {
        return Err(Error::AccountDidNotDeserialize);
    }
    Ok(Collaborator { bump: data[8] })
}

/// Law: a serialized collaborator record parses back to itself, whatever
/// discriminator precedes it.
pub proof fn lemma_collaborator_roundtrip(pre: Seq<u8>, c: Collaborator)
    requires
        pre.len() == 8,
    ensures
        collaborator_bytes_valid(pre + collaborator_body(c)),
        (pre + collaborator_body(c))[8] == c.bump,
{
}

// ------------------------------------------------------------------------
// Event
// ------------------------------------------------------------------------

/// Whether record bytes parse as an event record.
pub open spec fn event_bytes_valid(data: Seq<u8>) -> bool {
    data.len() >= 77
}

/// The field bytes of an event record, after the discriminator.
pub open spec fn event_body(e: Event) -> Seq<u8> {
    e.accepted_mint@ + e.authority@ + seq![
        e.bump,
        e.event_vault_bump,
        e.event_mint_bump,
        e.event_metadata_bump,
        e.event_master_edition_bump,
    ]
}

/// Serializes an event record's fields.
pub fn serialize_event_body(e: &Event) -> (r: Vec<u8>)
    ensures
        r@ == event_body(*e),
{
    let mut v: Vec<u8> = Vec::new();
    push_addr(&mut v, &e.accepted_mint);
    push_addr(&mut v, &e.authority);
    v.push(e.bump);
    v.push(e.event_vault_bump);
    v.push(e.event_mint_bump);
    v.push(e.event_metadata_bump);
    v.push(e.event_master_edition_bump);
    proof {
        assert(v@ =~= event_body(*e));
    }
    v
}

/// Parses an event record from its raw bytes, skipping the discriminator.
pub fn try_deserialize_event_unchecked(data: &[u8]) -> (r: Result<Event, Error>)
    ensures
        match r {
            Ok(e) => event_bytes_valid(data@)
                && e.accepted_mint@ == data@.subrange(8, 40)
                && e.authority@ == data@.subrange(40, 72)
                && e.bump == data@[72]
                && e.event_vault_bump == data@[73]
                && e.event_mint_bump == data@[74]
                && e.event_metadata_bump == data@[75]
                && e.event_master_edition_bump == data@[76],
            Err(e) => !event_bytes_valid(data@) && e == Error::AccountDidNotDeserialize,
        },
{
    if data.len() < 77 {
        return Err(Error::AccountDidNotDeserialize);
    }
    Ok(Event {
        accepted_mint: read_addr(data, 8),
        authority: read_addr(data, 40),
        bump: data[72],
        event_vault_bump: data[73],
        event_mint_bump: data[74],
        event_metadata_bump: data[75],
        event_master_edition_bump: data[76],
    })
}

/// Law: a serialized event record parses back to itself, whatever
/// discriminator precedes it.
pub proof fn lemma_event_roundtrip(pre: Seq<u8>, e: Event)
    requires
        pre.len() == 8,
    ensures
        event_bytes_valid(pre + event_body(e)),
        (pre + event_body(e)).subrange(8, 40) == e.accepted_mint@,
        (pre + event_body(e)).subrange(40, 72) == e.authority@,
        (pre + event_body(e))[72] == e.bump,
        (pre + event_body(e))[73] == e.event_vault_bump,
        (pre + event_body(e))[74] == e.event_mint_bump,
        (pre + event_body(e))[75] == e.event_metadata_bump,
        (pre + event_body(e))[76] == e.event_master_edition_bump,
{
    assert((pre + event_body(e)).subrange(8, 40) =~= e.accepted_mint@);
    assert((pre + event_body(e)).subrange(40, 72) =~= e.authority@);
}

// ------------------------------------------------------------------------
// Ticket
// ------------------------------------------------------------------------

/// Whether record bytes parse as a ticket record: long enough, with a
/// sound flag byte.
pub open spec fn ticket_bytes_valid(data: Seq<u8>) -> bool {
    data.len() >= 46 && (data[40] == 0 || data[40] == 1)
}

/// The field bytes of a ticket record, after the discriminator.
pub open spec fn ticket_body(t: Ticket) -> Seq<u8> {
    t.authority@ + seq![
        flag_byte(t.checked_in),
        t.bump,
        t.associated_token_bump,
        t.mint_bump,
        t.metadata_bump,
        t.master_edition_bump,
    ]
}

/// Serializes a ticket record's fields.
pub fn serialize_ticket_body(t: &Ticket) -> (r: Vec<u8>)
    ensures
        r@ == ticket_body(*t),
{
    let mut v: Vec<u8> = Vec::new();
    push_addr(&mut v, &t.authority);
    v.push(if t.checked_in {
        1
    } else {
        0
    });
    v.push(t.bump);
    v.push(t.associated_token_bump);
    v.push(t.mint_bump);
    v.push(t.metadata_bump);
    v.push(t.master_edition_bump);
    proof {
        assert(v@ =~= ticket_body(*t));
    }
    v
}

/// Parses a ticket record from its raw bytes, skipping the discriminator.
/// A flag byte other than zero or one refuses the whole record, as the
/// host's record reader does.
pub fn try_deserialize_ticket_unchecked(data: &[u8]) -> (r: Result<Ticket, Error>)
    ensures
        match r {
            Ok(t) => ticket_bytes_valid(data@)
                && t.authority@ == data@.subrange(8, 40)
                && t.checked_in == (data@[40] == 1)
                && t.bump == data@[41]
                && t.associated_token_bump == data@[42]
                && t.mint_bump == data@[43]
                && t.metadata_bump == data@[44]
                && t.master_edition_bump == data@[45],
            Err(e) => !ticket_bytes_valid(data@) && e == Error::AccountDidNotDeserialize,
        },
{
    if data.len() < 46 {
        return Err(Error::AccountDidNotDeserialize);
    }
    if data[40] > 1 {
        return Err(Error::AccountDidNotDeserialize);
    }
    Ok(Ticket {
        authority: read_addr(data, 8),
        checked_in: data[40] == 1,
        bump: data[41],
        associated_token_bump: data[42],
        mint_bump: data[43],
        metadata_bump: data[44],
        master_edition_bump: data[45],
    })
}

/// Law: a serialized ticket record parses back to itself, whatever
/// discriminator precedes it.
pub proof fn lemma_ticket_roundtrip(pre: Seq<u8>, t: Ticket)
    requires
        pre.len() == 8,
    ensures
        ticket_bytes_valid(pre + ticket_body(t)),
        (pre + ticket_body(t)).subrange(8, 40) == t.authority@,
        ((pre + ticket_body(t))[40] == 1) == t.checked_in,
        (pre + ticket_body(t))[41] == t.bump,
        (pre + ticket_body(t))[42] == t.associated_token_bump,
        (pre + ticket_body(t))[43] == t.mint_bump,
        (pre + ticket_body(t))[44] == t.metadata_bump,
        (pre + ticket_body(t))[45] == t.master_edition_bump,
{
    assert((pre + ticket_body(t)).subrange(8, 40) =~= t.authority@);
}

// ------------------------------------------------------------------------
// EventTicket
// ------------------------------------------------------------------------

/// Whether record bytes parse as a batch ticket counter: long enough, with
/// a sound flag byte.
pub open spec fn event_ticket_bytes_valid(data: Seq<u8>) -> bool {
    data.len() >= 30 && (data[24] == 0 || data[24] == 1)
}

/// The field bytes of a batch ticket counter, after the discriminator.
pub open spec fn event_ticket_body(t: EventTicket) -> Seq<u8> {
    le32_bytes(t.price) + le32_bytes(t.quantity) + le32_bytes(t.sold) + le32_bytes(t.used)
        + seq![
        flag_byte(t.has_poap),
        t.bump,
        t.ticket_mint_bump,
        t.ticket_metadata_bump,
        t.attendance_mint_bump,
        t.attendance_metadata_bump,
    ]
}

/// Serializes a batch ticket counter's fields.
pub fn serialize_event_ticket_body(t: &EventTicket) -> (r: Vec<u8>)
    ensures
        r@ == event_ticket_body(*t),
{
    let mut v: Vec<u8> = Vec::new();
    push_le32(&mut v, t.price);
    push_le32(&mut v, t.quantity);
    push_le32(&mut v, t.sold);
    push_le32(&mut v, t.used);
    v.push(if t.has_poap {
        1
    } else {
        0
    });
    v.push(t.bump);
    v.push(t.ticket_mint_bump);
    v.push(t.ticket_metadata_bump);
    v.push(t.attendance_mint_bump);
    v.push(t.attendance_metadata_bump);
    proof {
        assert(v@ =~= event_ticket_body(*t));
    }
    v
}

/// Parses a batch ticket counter from its raw bytes, skipping the
/// discriminator.
pub fn try_deserialize_event_ticket_unchecked(data: &[u8]) -> (r: Result<
    EventTicket,
    crate::Error,
>)
    ensures
        match r {
            Ok(t) => event_ticket_bytes_valid(data@)
                && t.price == le32_at(data@, 8)
                && t.quantity == le32_at(data@, 12)
                && t.sold == le32_at(data@, 16)
                && t.used == le32_at(data@, 20)
                && t.has_poap == (data@[24] == 1)
                && t.bump == data@[25]
                && t.ticket_mint_bump == data@[26]
                && t.ticket_metadata_bump == data@[27]
                && t.attendance_mint_bump == data@[28]
                && t.attendance_metadata_bump == data@[29],
            Err(e) => !event_ticket_bytes_valid(data@) && e
                == crate::Error::AccountDidNotDeserialize,
        },
{
    if data.len() < 30 {
        return Err(crate::Error::AccountDidNotDeserialize);
    }
    if data[24] > 1 {
        return Err(crate::Error::AccountDidNotDeserialize);
    }
    Ok(EventTicket {
        price: read_le32(data, 8),
        quantity: read_le32(data, 12),
        sold: read_le32(data, 16),
        used: read_le32(data, 20),
        has_poap: data[24] == 1,
        bump: data[25],
        ticket_mint_bump: data[26],
        ticket_metadata_bump: data[27],
        attendance_mint_bump: data[28],
        attendance_metadata_bump: data[29],
    })
}

/// Law: a serialized batch ticket counter parses back to itself, whatever
/// discriminator precedes it.
pub proof fn lemma_event_ticket_roundtrip(pre: Seq<u8>, t: EventTicket)
    requires
        pre.len() == 8,
    ensures
        event_ticket_bytes_valid(pre + event_ticket_body(t)),
        le32_at(pre + event_ticket_body(t), 8) == t.price,
        le32_at(pre + event_ticket_body(t), 12) == t.quantity,
        le32_at(pre + event_ticket_body(t), 16) == t.sold,
        le32_at(pre + event_ticket_body(t), 20) == t.used,
        ((pre + event_ticket_body(t))[24] == 1) == t.has_poap,
        (pre + event_ticket_body(t))[25] == t.bump,
        (pre + event_ticket_body(t))[26] == t.ticket_mint_bump,
        (pre + event_ticket_body(t))[27] == t.ticket_metadata_bump,
        (pre + event_ticket_body(t))[28] == t.attendance_mint_bump,
        (pre + event_ticket_body(t))[29] == t.attendance_metadata_bump,
{
    lemma_le32_identity(t.price);
    lemma_le32_identity(t.quantity);
    lemma_le32_identity(t.sold);
    lemma_le32_identity(t.used);
}

} // verus!
