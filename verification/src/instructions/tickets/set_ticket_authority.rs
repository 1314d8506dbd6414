//! Reassigning the current authority (holder) of a ticket.

use vstd::prelude::*;
use crate::collections::Ticket;
use crate::errors::{Error, ErrorCode};
use crate::pda::{associated_token_seeds, check_pda, ticket_seeds, ticket_mint_tag_bytes, Addr};
use crate::pda::seeds2;
use crate::pda::seeds3;
use crate::pda::ticket_tag_bytes;

verus! {

/// The records and identities referenced by one `SetTicketAuthority` call.
///
/// `authority` is the identity whose signature the host runtime has already
/// verified on this operation.
pub struct SetTicketAuthority {
    pub token_program: Addr,
    pub associated_token_program: Addr,
    pub authority: Addr,
    pub new_authority: Addr,
    pub ticket_mint: Addr,
    /// The ticket record, stored at `ticket_key`.
    pub ticket: Ticket,
    pub ticket_key: Addr,
    /// The new authority's holding record for the ticket's unit; the caller
    /// must show it already exists by supplying its address and bump.
    pub new_authority_ticket_vault: Addr,
}

/// The outcome of resolving and checking the referenced records, in the
/// order the runtime checks them: first the ticket's derived address, then
/// the ticket's own preconditions, then the new holder's vault address.
pub open spec fn set_ticket_authority_check(
    a: SetTicketAuthority,
    new_authority_ticket_vault_bump: u8,
    program: Seq<u8>,
) -> Result<(), Error> {
    if !crate::pda::pda_matches(ticket_seeds(a.ticket_mint@), program, a.ticket_key@, a.ticket.bump) {
        Err(Error::ConstraintSeeds)
    } else if a.ticket.authority@ != a.authority@ {
        Err(Error::Code(ErrorCode::OnlyTicketAuthorityCanChangeAuthority))
    } else if a.ticket.checked_in {
        Err(Error::Code(ErrorCode::CheckedInTicketsCantChangeAuthority))
    } else if !crate::pda::pda_matches(
        associated_token_seeds(a.new_authority@, a.token_program@, a.ticket_mint@),
        a.associated_token_program@,
        a.new_authority_ticket_vault@,
        new_authority_ticket_vault_bump,
    ) {
        Err(Error::ConstraintSeeds)
    } else {
        Ok(())
    }
}

/// Sets a new authority on a ticket.
///
/// Succeeds exactly when the ticket record matches its derived address, the
/// caller is the ticket's current authority, the ticket has not been checked
/// in, and the new authority's holding record for the ticket's unit is at
/// its derived address.  On success the ticket's authority becomes
/// `new_authority` and the recorded holding-record bump is replaced; on any
/// failure nothing changes.
pub fn handle(
    a: &mut SetTicketAuthority,
    new_authority_ticket_vault_bump: u8,
    program_id: &Addr,
) -> (r: Result<(), Error>)
    ensures
        r == set_ticket_authority_check(*old(a), new_authority_ticket_vault_bump, program_id@),
        r is Ok ==> *final(a) == (SetTicketAuthority {
            ticket: Ticket {
                authority: old(a).new_authority,
                associated_token_bump: new_authority_ticket_vault_bump,
                ..old(a).ticket
            },
            ..*old(a)
        }),
        r is Err ==> *final(a) == *old(a),
        old(a).ticket.authority@ != old(a).authority@ ==> r is Err
            && final(a).ticket.authority == old(a).ticket.authority,
        old(a).ticket.checked_in ==> r is Err && final(a).ticket.checked_in,
{
    let ticket_seed_list = seeds2(ticket_tag_bytes(), a.ticket_mint.to_seed());
    if !check_pda(&ticket_seed_list, program_id, &a.ticket_key, a.ticket.bump) {
        return Err(Error::ConstraintSeeds);
    }
    if !(a.ticket.authority == a.authority) {
        return Err(Error::Code(ErrorCode::OnlyTicketAuthorityCanChangeAuthority));
    }
    if a.ticket.checked_in {
        return Err(Error::Code(ErrorCode::CheckedInTicketsCantChangeAuthority));
    }
    let vault_seed_list = seeds3(
        a.new_authority.to_seed(),
        a.token_program.to_seed(),
        a.ticket_mint.to_seed(),
    );
    if !check_pda(
        &vault_seed_list,
        &a.associated_token_program,
        &a.new_authority_ticket_vault,
        new_authority_ticket_vault_bump,
    ) {
        return Err(Error::ConstraintSeeds);
    }
    a.ticket.authority = a.new_authority;
    a.ticket.associated_token_bump = new_authority_ticket_vault_bump;
    Ok(())
}

} // verus!
