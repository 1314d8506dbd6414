//! A read-only assertion that a claimed authority currently holds a ticket.

use vstd::prelude::*;
use crate::collections::{Event, Ticket, TicketMachine};
use crate::errors::{Error, ErrorCode};
use crate::pda::{
    associated_token_seeds, check_pda, clone_bytes, event_seeds_by_id, event_tag_bytes,
    pda_matches, seeds2, seeds3, seeds4, ticket_machine_seeds, ticket_machine_tag_bytes,
    ticket_mint_seeds3, ticket_mint_tag_bytes, ticket_seeds, ticket_tag_bytes, Addr,
};

verus! {

/// The records and identities referenced by one `VerifyTicketOwnership`
/// call.  `authority` is the identity whose signature the host runtime has
/// already verified; `ticket_vault_amount` is the unit balance of the
/// claimed holding record.
pub struct VerifyTicketOwnership {
    pub token_program: Addr,
    pub associated_token_program: Addr,
    pub authority: Addr,
    /// The event record, stored at `event_key`.
    pub event: Event,
    pub event_key: Addr,
    /// The ticket machine record, stored at `ticket_machine_key`.
    pub ticket_machine: TicketMachine,
    pub ticket_machine_key: Addr,
    pub ticket_mint: Addr,
    /// The ticket record, stored at `ticket_key`.
    pub ticket: Ticket,
    pub ticket_key: Addr,
    pub ticket_vault: Addr,
    pub ticket_vault_amount: u64,
}

/// The outcome of the ownership check, in the order the runtime performs
/// it: the derived addresses of event, machine, mint and ticket, then the
/// recorded authority, then the holder's vault address and its balance.
pub open spec fn verify_ticket_ownership_check(
    a: VerifyTicketOwnership,
    event_id: Seq<u8>,
    ticket_machine_id: Seq<u8>,
    ticket_mint_id: Seq<u8>,
    program: Seq<u8>,
) -> Result<(), Error> {
    if !pda_matches(event_seeds_by_id(event_id), program, a.event_key@, a.event.bump) {
        Err(Error::ConstraintSeeds)
    } else if !pda_matches(
        ticket_machine_seeds(a.event_key@, ticket_machine_id),
        program,
        a.ticket_machine_key@,
        a.ticket_machine.bump,
    ) {
        Err(Error::ConstraintSeeds)
    } else if !pda_matches(
        ticket_mint_seeds3(a.event_key@, a.ticket_machine_key@, ticket_mint_id),
        program,
        a.ticket_mint@,
        a.ticket.mint_bump,
    ) {
        Err(Error::ConstraintSeeds)
    } else if !pda_matches(ticket_seeds(a.ticket_mint@), program, a.ticket_key@, a.ticket.bump) {
        Err(Error::ConstraintSeeds)
    } else if a.ticket.authority@ != a.authority@ {
        Err(Error::Code(ErrorCode::InvalidAuthorityForTicket))
    } else if !pda_matches(
        associated_token_seeds(a.authority@, a.token_program@, a.ticket_mint@),
        a.associated_token_program@,
        a.ticket_vault@,
        a.ticket.associated_token_bump,
    ) {
        Err(Error::ConstraintSeeds)
    } else if a.ticket_vault_amount == 0 {
        Err(Error::Code(ErrorCode::InvalidAuthorityForTicket))
    } else {
        Ok(())
    }
}

/// Asserts that `authority` is the ticket's recorded authority and holds at
/// least one unit of the ticket's mint in its derived holding record.
/// Mutates nothing; fails with `InvalidAuthorityForTicket` when the claimed
/// authority is not recorded on the ticket or its holding record is empty,
/// and with an address error when any record reference does not re-derive.
pub fn handle(
    a: &VerifyTicketOwnership,
    event_id: &Vec<u8>,
    ticket_machine_id: &Vec<u8>,
    ticket_mint_id: &Vec<u8>,
    program_id: &Addr,
) -> (r: Result<(), Error>)
    ensures
        r == verify_ticket_ownership_check(
            *a,
            event_id@,
            ticket_machine_id@,
            ticket_mint_id@,
            program_id@,
        ),
        a.ticket.authority@ != a.authority@ ==> r is Err,
        a.ticket_vault_amount == 0 ==> r is Err,
{
    let event_seed_list = seeds2(event_tag_bytes(), clone_bytes(event_id));
    if !check_pda(&event_seed_list, program_id, &a.event_key, a.event.bump) {
        return Err(Error::ConstraintSeeds);
    }
    let machine_seed_list = seeds3(
        ticket_machine_tag_bytes(),
        a.event_key.to_seed(),
        clone_bytes(ticket_machine_id),
    );
    if !check_pda(&machine_seed_list, program_id, &a.ticket_machine_key, a.ticket_machine.bump) {
        return Err(Error::ConstraintSeeds);
    }
    let mint_seed_list = seeds4(
        ticket_mint_tag_bytes(),
        a.event_key.to_seed(),
        a.ticket_machine_key.to_seed(),
        clone_bytes(ticket_mint_id),
    );
    if !check_pda(&mint_seed_list, program_id, &a.ticket_mint, a.ticket.mint_bump) {
        return Err(Error::ConstraintSeeds);
    }
    let ticket_seed_list = seeds2(ticket_tag_bytes(), a.ticket_mint.to_seed());
    if !check_pda(&ticket_seed_list, program_id, &a.ticket_key, a.ticket.bump) {
        return Err(Error::ConstraintSeeds);
    }
    if !(a.ticket.authority == a.authority) {
        return Err(Error::Code(ErrorCode::InvalidAuthorityForTicket));
    }
    let vault_seed_list = seeds3(
        a.authority.to_seed(),
        a.token_program.to_seed(),
        a.ticket_mint.to_seed(),
    );
    if !check_pda(
        &vault_seed_list,
        &a.associated_token_program,
        &a.ticket_vault,
        a.ticket.associated_token_bump,
    ) {
        return Err(Error::ConstraintSeeds);
    }
    if a.ticket_vault_amount == 0 {
        return Err(Error::Code(ErrorCode::InvalidAuthorityForTicket));
    }
    Ok(())
}

} // verus!
