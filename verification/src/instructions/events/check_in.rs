//! Redeeming a ticket: the irreversible check-in of one sold unit.

use vstd::prelude::*;
use crate::collections::{Event, Ticket, TicketMachine};
use crate::errors::{Error, ErrorCode};
use crate::pda::{
    associated_token_seeds, check_pda, clone_bytes, event_seeds_by_id, event_tag_bytes,
    metadata_seeds, metadata_tag_bytes, pda_matches, seeds2, seeds3, seeds4,
    ticket_machine_seeds, ticket_machine_tag_bytes, ticket_mint_seeds3, ticket_mint_tag_bytes,
    ticket_seeds, ticket_tag_bytes, Addr,
};
use crate::services::Utilize;

verus! {

/// The records and identities referenced by one `CheckIn` call.
///
/// `authority` is the attendee: the identity whose signature the host
/// runtime has already verified, and whose derived holding record for the
/// ticket's unit is presented as `ticket_vault`.
pub struct CheckIn {
    pub metadata_program: Addr,
    pub token_program: Addr,
    pub associated_token_program: Addr,
    pub authority: Addr,
    /// The event record, stored at `event_key`.
    pub event: Event,
    pub event_key: Addr,
    /// The ticket machine record, stored at `ticket_machine_key`.
    pub ticket_machine: TicketMachine,
    pub ticket_machine_key: Addr,
    pub ticket_mint: Addr,
    pub ticket_metadata: Addr,
    pub ticket_vault: Addr,
    /// The ticket record, stored at `ticket_key`.
    pub ticket: Ticket,
    pub ticket_key: Addr,
}

/// The outcome of resolving and checking the referenced records, in the
/// order the runtime checks them: the derived addresses of event, machine,
/// mint, metadata and the attendee's vault, then the ticket's address and
/// its redemption state.
pub open spec fn check_in_check(
    a: CheckIn,
    event_id: Seq<u8>,
    ticket_machine_id: Seq<u8>,
    ticket_mint_id: Seq<u8>,
    program: Seq<u8>,
) -> Result<(), Error> {
    if !pda_matches(event_seeds_by_id(event_id), program, a.event_key@, a.event.bump) {
        Err(Error::ConstraintSeeds)
    } else if !pda_matches(
        ticket_machine_seeds(a.event_key@, ticket_machine_id),
        program,
        a.ticket_machine_key@,
        a.ticket_machine.bump,
    ) {
        Err(Error::ConstraintSeeds)
    } else if !pda_matches(
        ticket_mint_seeds3(a.event_key@, a.ticket_machine_key@, ticket_mint_id),
        program,
        a.ticket_mint@,
        a.ticket.mint_bump,
    ) {
        Err(Error::ConstraintSeeds)
    } else if !pda_matches(
        metadata_seeds(a.metadata_program@, a.ticket_mint@),
        a.metadata_program@,
        a.ticket_metadata@,
        a.ticket.metadata_bump,
    ) {
        Err(Error::ConstraintSeeds)
    } else if !pda_matches(
        associated_token_seeds(a.authority@, a.token_program@, a.ticket_mint@),
        a.associated_token_program@,
        a.ticket_vault@,
        a.ticket.associated_token_bump,
    ) {
        Err(Error::ConstraintSeeds)
    } else if !pda_matches(ticket_seeds(a.ticket_mint@), program, a.ticket_key@, a.ticket.bump) {
        Err(Error::ConstraintSeeds)
    } else if a.ticket.checked_in {
        Err(Error::Code(ErrorCode::TicketAlreadyCheckedIn))
    } else {
        Ok(())
    }
}

/// Checks one ticket in.
///
/// Requires the machine's redemption precondition `used < sold`, witnessed
/// by the unredeemed sold ticket being presented.  Succeeds exactly when
/// every referenced record re-derives to its claimed address and the ticket
/// has not been checked in before; a second check-in of the same ticket
/// fails with `TicketAlreadyCheckedIn`.  On success the ticket is
/// irreversibly marked checked-in, the machine's `used` counter rises by
/// one, and the host consumes one use of the unit's allowance.  On any
/// failure nothing changes.
pub fn handle(
    a: &mut CheckIn,
    event_id: &Vec<u8>,
    ticket_machine_id: &Vec<u8>,
    ticket_mint_id: &Vec<u8>,
    program_id: &Addr,
) -> (r: Result<Utilize, Error>)
    requires
        old(a).ticket_machine.used < old(a).ticket_machine.sold,
    ensures
        match check_in_check(*old(a), event_id@, ticket_machine_id@, ticket_mint_id@, program_id@) {
            Err(e) => r matches Err(e2) && e2 == e && *final(a) == *old(a),
            Ok(()) => r matches Ok(u)
                && *final(a) == (CheckIn {
                    ticket_machine: TicketMachine {
                        used: (old(a).ticket_machine.used + 1) as u64,
                        ..old(a).ticket_machine
                    },
                    ticket: Ticket { checked_in: true, ..old(a).ticket },
                    ..*old(a)
                })
                && u == (Utilize {
                    metadata: old(a).ticket_metadata,
                    token_account: old(a).ticket_vault,
                    mint: old(a).ticket_mint,
                    use_authority: old(a).authority,
                    owner: old(a).authority,
                    number_of_uses: 1,
                }),
        },
        old(a).ticket.checked_in ==> r is Err && *final(a) == *old(a),
        final(a).ticket.checked_in == (old(a).ticket.checked_in || r is Ok),
        old(a).ticket_machine.wf() ==> final(a).ticket_machine.wf(),
        final(a).ticket.authority == old(a).ticket.authority,
        final(a).ticket_machine.sold == old(a).ticket_machine.sold,
{
    let event_seed_list = seeds2(event_tag_bytes(), clone_bytes(event_id));
    if !check_pda(&event_seed_list, program_id, &a.event_key, a.event.bump) {
        return Err(Error::ConstraintSeeds);
    }
    let machine_seed_list = seeds3(
        ticket_machine_tag_bytes(),
        a.event_key.to_seed(),
        clone_bytes(ticket_machine_id),
    );
    if !check_pda(&machine_seed_list, program_id, &a.ticket_machine_key, a.ticket_machine.bump) {
        return Err(Error::ConstraintSeeds);
    }
    let mint_seed_list = seeds4(
        ticket_mint_tag_bytes(),
        a.event_key.to_seed(),
        a.ticket_machine_key.to_seed(),
        clone_bytes(ticket_mint_id),
    );
    if !check_pda(&mint_seed_list, program_id, &a.ticket_mint, a.ticket.mint_bump) {
        return Err(Error::ConstraintSeeds);
    }
    let md_seed_list = seeds3(
        metadata_tag_bytes(),
        a.metadata_program.to_seed(),
        a.ticket_mint.to_seed(),
    );
    if !check_pda(&md_seed_list, &a.metadata_program, &a.ticket_metadata, a.ticket.metadata_bump) {
        return Err(Error::ConstraintSeeds);
    }
    let vault_seed_list = seeds3(
        a.authority.to_seed(),
        a.token_program.to_seed(),
        a.ticket_mint.to_seed(),
    );
    if !check_pda(
        &vault_seed_list,
        &a.associated_token_program,
        &a.ticket_vault,
        a.ticket.associated_token_bump,
    ) {
        return Err(Error::ConstraintSeeds);
    }
    let ticket_seed_list = seeds2(ticket_tag_bytes(), a.ticket_mint.to_seed());
    if !check_pda(&ticket_seed_list, program_id, &a.ticket_key, a.ticket.bump) {
        return Err(Error::ConstraintSeeds);
    }
    if a.ticket.checked_in {
        return Err(Error::Code(ErrorCode::TicketAlreadyCheckedIn));
    }
    a.ticket_machine.used = a.ticket_machine.used + 1;
    a.ticket.checked_in = true;
    Ok(Utilize {
        metadata: a.ticket_metadata,
        token_account: a.ticket_vault,
        mint: a.ticket_mint,
        use_authority: a.authority,
        owner: a.authority,
        number_of_uses: 1,
    })
}

} // verus!
