//! Errors of the per-ticket operations.

use vstd::prelude::*;

verus! {

/// The named precondition failures of the program's own rules.
#[derive(Clone, Copy, PartialEq, Eq, Structural, Debug)]
pub enum ErrorCode {
    /// A sale was requested beyond the machine's remaining quantity.
    NotEnoughTicketsAvailable,
    /// The ticket has already been checked in.
    TicketAlreadyCheckedIn,
    /// The claimed authority is not the authority recorded on the ticket.
    InvalidAuthorityForTicket,
    /// Only the ticket's current authority may set a new authority.
    OnlyTicketAuthorityCanChangeAuthority,
    /// A checked-in ticket can never change authority.
    CheckedInTicketsCantChangeAuthority,
    /// Only the event's authority may create collaborators.
    OnlyEventAuthorityCanCreateCollaborators,
    /// Only the event's authority may delete collaborators.
    OnlyEventAuthorityCanDeleteCollaborators,
}

/// Everything an operation can fail with: one of the program's own error
/// codes, or an address-integrity failure raised while resolving the
/// referenced records.
#[derive(Clone, Copy, PartialEq, Eq, Structural, Debug)]
pub enum Error {
    /// A precondition of the program's own rules failed.
    Code(ErrorCode),
    /// A record reference did not match its re-derived address, or a stored
    /// disambiguation byte did not match the canonical one.
    ConstraintSeeds,
    /// A raw record constraint failed (for example a vault of the wrong
    /// payment unit).
    ConstraintRaw,
    /// A record to be created already exists at its derived address.
    AccountAlreadyInUse,
    /// No valid disambiguation byte exists for the requested derivation.
    BumpNotFound,
    /// A record's raw bytes do not parse as the expected record type.
    AccountDidNotDeserialize,
}

} // verus!
