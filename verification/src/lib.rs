//! State-transition core of an event-ticketing ledger program.
//!
//! Every operation of the program is modelled as a deterministic transition
//! over a set of persistent keyed records: an `Event`, its `Collaborator`s,
//! a bounded-supply ticket counter and the per-unit `Ticket` records.  Each
//! transition re-derives the addresses of the records it touches, checks the
//! operation's preconditions, and either applies all its record mutations
//! and reports the external sub-calls to perform, or fails with a named
//! error and changes nothing.
//!
//! The crate root holds the program's first generation: an [`EventTicket`]
//! counter sold and redeemed in batches, with its operations under
//! [`disco`].  The [`collections`] and [`instructions`] modules hold the
//! later generation, which tracks every sold unit in a [`collections::Ticket`]
//! record of its own.

pub mod collections;
pub mod disco;
pub mod errors;
pub mod instructions;
pub mod laws;
pub mod pda;
pub mod services;
pub mod utils;

use vstd::prelude::*;
use crate::pda::Addr;

verus! {

/// Root record of one event: its title, the payment unit it accepts, its
/// authority, and the disambiguation bytes of itself and its value vault.
#[derive(Clone, Debug)]
pub struct Event {
    /// At most 32 bytes.
    pub event_title: String,
    pub accepted_mint: Addr,
    pub authority: Addr,
    pub bump: u8,
    pub event_vault_bump: u8,
}

impl Event {
    /// Persisted size: discriminator, the length-prefixed title, two
    /// addresses and two bump bytes.
    pub const SIZE: usize = 8 + 36 + 32 + 32 + 1 + 1;
}

/// A delegated authority of one event; existence is the permission.
#[derive(Clone, Copy, Debug)]
pub struct Collaborator {
    pub bump: u8,
}

impl Collaborator {
    /// Persisted size: discriminator and the bump byte.
    pub const SIZE: usize = 8 + 1;
}

/// Per-event inventory counter of one ticket kind, sold and redeemed in
/// batches.
///
/// Well-formed counters keep `sold <= quantity` and `used <= sold`; see
/// [`EventTicket::wf`].
#[derive(Clone, Copy, PartialEq, Eq, Structural, Debug)]
pub struct EventTicket {
    pub price: u32,
    pub quantity: u32,
    pub sold: u32,
    pub used: u32,
    /// Whether a proof-of-attendance unit has been attached to this kind.
    pub has_poap: bool,
    pub bump: u8,
    pub ticket_mint_bump: u8,
    pub ticket_metadata_bump: u8,
    pub attendance_mint_bump: u8,
    pub attendance_metadata_bump: u8,
}

impl EventTicket {
    /// Persisted size: discriminator, four counters, the flag and five bump
    /// bytes.
    pub const SIZE: usize = 8 + 4 + 4 + 4 + 4 + 1 + 1 + 1 + 1 + 1 + 1;

    /// The inventory invariant: never more sold than the quantity, never
    /// more used than sold.
    pub open spec fn wf(self) -> bool {
        self.sold <= self.quantity && self.used <= self.sold
    }
}

/// The named precondition failures of the batch-ticketing rules.
#[derive(Clone, Copy, PartialEq, Eq, Structural, Debug)]
pub enum ErrorCode {
    /// A sale was requested beyond the counter's remaining quantity.
    NotEnoughTicketsAvailable,
    /// A redemption was requested beyond the sold, still-unredeemed units.
    NotEnoughTicketsToCheckIn,
    /// Only the event's authority may create collaborators.
    OnlyEventAuthorityCanCreateCollaborators,
    /// Only the event's authority may delete collaborators.
    OnlyEventAuthorityCanDeleteCollaborators,
    /// Plain check-in is reserved for ticket kinds without attendance proof.
    CheckInIsOnlyAvailableForTicketsWithoutAttendance,
}

/// Everything a batch operation can fail with: one of the named error codes
/// or an address-integrity failure raised while resolving the referenced
/// records.
#[derive(Clone, Copy, PartialEq, Eq, Structural, Debug)]
pub enum Error {
    /// A precondition of the program's own rules failed.
    Code(ErrorCode),
    /// A record reference did not match its re-derived address, or a stored
    /// disambiguation byte did not match the canonical one.
    ConstraintSeeds,
    /// A raw record constraint failed (for example a vault of the wrong
    /// unit).
    ConstraintRaw,
    /// A record to be created already exists at its derived address.
    AccountAlreadyInUse,
    /// No valid disambiguation byte exists for the requested derivation.
    BumpNotFound,
    /// A record's raw bytes do not parse as the expected record type.
    AccountDidNotDeserialize,
}

/// The records and identities referenced by one [`disco::create_event`]
/// call.  `authority` is the identity whose signature the host runtime has
/// already verified; the `*_occupied` flags report whether a record already
/// exists at the derived address of each record this operation creates.
pub struct CreateEvent {
    pub authority: Addr,
    pub event_base: Addr,
    pub event_key: Addr,
    pub event_occupied: bool,
    /// The payment unit the event accepts.
    pub accepted_mint: Addr,
    pub event_vault: Addr,
    pub event_vault_occupied: bool,
}

/// The records and identities referenced by one
/// [`disco::create_collaborator`] call.
pub struct CreateCollaborator {
    pub authority: Addr,
    pub event_base: Addr,
    /// The event record, stored at `event_key`.
    pub event: Event,
    pub event_key: Addr,
    pub collaborator_base: Addr,
    pub collaborator_key: Addr,
    pub collaborator_occupied: bool,
}

/// The records and identities referenced by one
/// [`disco::delete_collaborator`] call.  The collaborator record's storage
/// stake is refunded to `authority` on success.
pub struct DeleteCollaborator {
    pub authority: Addr,
    pub event_base: Addr,
    /// The event record, stored at `event_key`.
    pub event: Event,
    pub event_key: Addr,
    pub collaborator_base: Addr,
    /// The collaborator record to destroy, stored at `collaborator_key`.
    pub collaborator: Collaborator,
    pub collaborator_key: Addr,
}

/// The records and identities referenced by one
/// [`disco::create_event_ticket`] call.
pub struct CreateEventTicket {
    pub metadata_program: Addr,
    pub authority: Addr,
    pub event_base: Addr,
    /// The event record, stored at `event_key`.
    pub event: Event,
    pub event_key: Addr,
    pub event_ticket_base: Addr,
    pub event_ticket_key: Addr,
    pub event_ticket_occupied: bool,
    pub ticket_mint: Addr,
    pub ticket_mint_occupied: bool,
    pub ticket_metadata: Addr,
}

/// The records and identities referenced by one
/// [`disco::create_proof_of_attendance`] call.
pub struct CreateProofOfAttendance {
    pub metadata_program: Addr,
    pub authority: Addr,
    pub event_base: Addr,
    /// The event record, stored at `event_key`.
    pub event: Event,
    pub event_key: Addr,
    pub event_ticket_base: Addr,
    /// The ticket counter record, stored at `event_ticket_key`.
    pub event_ticket: EventTicket,
    pub event_ticket_key: Addr,
    pub attendance_mint: Addr,
    pub attendance_mint_occupied: bool,
    pub attendance_metadata: Addr,
}

/// The records and identities referenced by one [`disco::buy_tickets`]
/// call.  `authority` is the buyer.
pub struct BuyTickets {
    pub authority: Addr,
    pub event_base: Addr,
    /// The event record, stored at `event_key`.
    pub event: Event,
    pub event_key: Addr,
    pub event_ticket_base: Addr,
    /// The ticket counter record, stored at `event_ticket_key`.
    pub event_ticket: EventTicket,
    pub event_ticket_key: Addr,
    pub buyer_vault: Addr,
    /// The payment unit of the buyer's vault.
    pub buyer_vault_mint: Addr,
    pub event_vault: Addr,
    pub ticket_mint: Addr,
    pub ticket_vault: Addr,
    /// The unit of the buyer's ticket vault.
    pub ticket_vault_mint: Addr,
}

/// The records and identities referenced by one [`disco::check_in`] call.
/// `collaborator_base` and `attendee` are the identities whose signatures
/// the host runtime has already verified; the collaborator record derived
/// from `collaborator_base` is the redeemer's permission.
pub struct CheckIn {
    pub collaborator_base: Addr,
    pub attendee: Addr,
    pub event_base: Addr,
    /// The event record, stored at `event_key`.
    pub event: Event,
    pub event_key: Addr,
    /// The collaborator record, stored at `collaborator_key`.
    pub collaborator: Collaborator,
    pub collaborator_key: Addr,
    pub event_ticket_base: Addr,
    /// The ticket counter record, stored at `event_ticket_key`.
    pub event_ticket: EventTicket,
    pub event_ticket_key: Addr,
    pub ticket_mint: Addr,
    pub ticket_vault: Addr,
    /// The unit of the attendee's ticket vault.
    pub ticket_vault_mint: Addr,
}

/// The records and identities referenced by one
/// [`disco::check_in_with_attendance`] call.
pub struct CheckInWithAttendance {
    pub collaborator_base: Addr,
    pub attendee: Addr,
    pub event_base: Addr,
    /// The event record, stored at `event_key`.
    pub event: Event,
    pub event_key: Addr,
    /// The collaborator record, stored at `collaborator_key`.
    pub collaborator: Collaborator,
    pub collaborator_key: Addr,
    pub event_ticket_base: Addr,
    /// The ticket counter record, stored at `event_ticket_key`.
    pub event_ticket: EventTicket,
    pub event_ticket_key: Addr,
    pub ticket_mint: Addr,
    pub ticket_vault: Addr,
    /// The unit of the attendee's ticket vault.
    pub ticket_vault_mint: Addr,
    pub attendance_mint: Addr,
    pub attendance_vault: Addr,
    /// The unit of the attendee's attendance vault.
    pub attendance_vault_mint: Addr,
}

} // verus!
