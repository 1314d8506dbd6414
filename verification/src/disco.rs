//! The batch-ticketing operations of the program's first generation.

use vstd::prelude::*;
use crate::pda::{
    attendance_mint_seeds, attendance_mint_tag_bytes, check_pda, collaborator_seeds,
    collaborator_tag_bytes, event_seeds_by_base, event_tag_bytes, event_ticket_seeds,
    event_ticket_tag_bytes, event_vault_seeds, event_vault_tag_bytes, find_pda, metadata_seeds,
    metadata_tag_bytes, pda_addr_matches, pda_matches, pda_result, seeds2, seeds3,
    ticket_mint_seeds2, ticket_mint_tag_bytes, Addr,
};
use crate::services::{Burn, CreateMetadata, MintTo, Transfer};
use crate::{
    BuyTickets, CheckIn, CheckInWithAttendance, Collaborator, CreateCollaborator, CreateEvent,
    CreateEventTicket, CreateProofOfAttendance, DeleteCollaborator, Error, ErrorCode, Event,
    EventTicket,
};

verus! {

// ------------------------------------------------------------------------
// create_event
// ------------------------------------------------------------------------

/// The outcome of resolving the addresses of the records `create_event`
/// creates.  `Ok` carries the bumps chosen for the event record and its
/// vault.
pub open spec fn create_event_check(a: CreateEvent, program: Seq<u8>) -> Result<(u8, u8), Error> {
    match pda_result(event_seeds_by_base(a.event_base@), program) {
        None => Err(Error::BumpNotFound),
        Some((event_addr, event_bump)) => if event_addr != a.event_key@ {
            Err(Error::ConstraintSeeds)
        } else if a.event_occupied {
            Err(Error::AccountAlreadyInUse)
        } else {
            match pda_result(event_vault_seeds(a.event_key@), program) {
                None => Err(Error::BumpNotFound),
                Some((vault_addr, vault_bump)) => if vault_addr != a.event_vault@ {
                    Err(Error::ConstraintSeeds)
                } else if a.event_vault_occupied {
                    Err(Error::AccountAlreadyInUse)
                } else {
                    Ok((event_bump, vault_bump))
                },
            }
        },
    }
}

/// Creates an event record and its value vault.
///
/// Succeeds exactly when the derived addresses of the event record and its
/// vault match the given keys and are vacant.  The new event stores the
/// title, the accepted payment unit, the caller as root authority and the
/// chosen bumps.  A second creation at the same derived address fails.
pub fn create_event(
    a: &CreateEvent,
    event_title: String,
    program_id: &Addr,
) -> (r: Result<Event, Error>)
    ensures
        match create_event_check(*a, program_id@) {
            Err(e) => r matches Err(e2) && e2 == e,
            Ok(bumps) => r matches Ok(ev)
                && ev.event_title@ == event_title@
                && ev.accepted_mint == a.accepted_mint
                && ev.authority == a.authority
                && ev.bump == bumps.0
                && ev.event_vault_bump == bumps.1,
        },
{
    let event_seed_list = seeds2(event_tag_bytes(), a.event_base.to_seed());
    let event_bump: u8 = match find_pda(&event_seed_list, program_id) {
        None => {
            return Err(Error::BumpNotFound);
        },
        Some(p) => {
            if !(p.0 == a.event_key) {
                return Err(Error::ConstraintSeeds);
            }
            if a.event_occupied {
                return Err(Error::AccountAlreadyInUse);
            }
            p.1
        },
    };
    let vault_seed_list = seeds2(event_vault_tag_bytes(), a.event_key.to_seed());
    match find_pda(&vault_seed_list, program_id) {
        None => Err(Error::BumpNotFound),
        Some(p) => {
            if !(p.0 == a.event_vault) {
                return Err(Error::ConstraintSeeds);
            }
            if a.event_vault_occupied {
                return Err(Error::AccountAlreadyInUse);
            }
            Ok(Event {
                event_title,
                accepted_mint: a.accepted_mint,
                authority: a.authority,
                bump: event_bump,
                event_vault_bump: p.1,
            })
        },
    }
}

// ------------------------------------------------------------------------
// create_collaborator / delete_collaborator
// ------------------------------------------------------------------------

/// The outcome of the checks of `create_collaborator`: the event's derived
/// address, the caller's authority over the event, then the collaborator's
/// derived address and its vacancy.
pub open spec fn create_collaborator_check(
    a: CreateCollaborator,
    program: Seq<u8>,
) -> Result<u8, Error> {
    if !pda_matches(event_seeds_by_base(a.event_base@), program, a.event_key@, a.event.bump) {
        Err(Error::ConstraintSeeds)
    } else if a.event.authority@ != a.authority@ {
        Err(Error::Code(ErrorCode::OnlyEventAuthorityCanCreateCollaborators))
    } else {
        match pda_result(collaborator_seeds(a.event_key@, a.collaborator_base@), program) {
            None => Err(Error::BumpNotFound),
            Some((addr, bump)) => if addr != a.collaborator_key@ {
                Err(Error::ConstraintSeeds)
            } else if a.collaborator_occupied {
                Err(Error::AccountAlreadyInUse)
            } else {
                Ok(bump)
            },
        }
    }
}

/// Creates a collaborator record scoped to the event and a base key.
///
/// Only the event's authority may do so: any other caller fails with
/// `OnlyEventAuthorityCanCreateCollaborators` and no record is created.
pub fn create_collaborator(
    a: &CreateCollaborator,
    program_id: &Addr,
) -> (r: Result<Collaborator, Error>)
    ensures
        match create_collaborator_check(*a, program_id@) {
            Ok(bump) => r matches Ok(c) && c.bump == bump,
            Err(e) => r matches Err(e2) && e2 == e,
        },
        a.event.authority@ != a.authority@ ==> r is Err,
{
    let event_seed_list = seeds2(event_tag_bytes(), a.event_base.to_seed());
    if !check_pda(&event_seed_list, program_id, &a.event_key, a.event.bump) {
        return Err(Error::ConstraintSeeds);
    }
    if !(a.event.authority == a.authority) {
        return Err(Error::Code(ErrorCode::OnlyEventAuthorityCanCreateCollaborators));
    }
    let collaborator_seed_list = seeds3(
        collaborator_tag_bytes(),
        a.event_key.to_seed(),
        a.collaborator_base.to_seed(),
    );
    match find_pda(&collaborator_seed_list, program_id) {
        None => Err(Error::BumpNotFound),
        Some(p) => {
            if !(p.0 == a.collaborator_key) {
                return Err(Error::ConstraintSeeds);
            }
            if a.collaborator_occupied {
                return Err(Error::AccountAlreadyInUse);
            }
            Ok(Collaborator { bump: p.1 })
        },
    }
}

/// The outcome of the checks of `delete_collaborator`.
pub open spec fn delete_collaborator_check(
    a: DeleteCollaborator,
    program: Seq<u8>,
) -> Result<(), Error> {
    if !pda_matches(event_seeds_by_base(a.event_base@), program, a.event_key@, a.event.bump) {
        Err(Error::ConstraintSeeds)
    } else if a.event.authority@ != a.authority@ {
        Err(Error::Code(ErrorCode::OnlyEventAuthorityCanDeleteCollaborators))
    } else {
        match pda_result(collaborator_seeds(a.event_key@, a.collaborator_base@), program) {
            None => Err(Error::BumpNotFound),
            Some((addr, _bump)) => if addr != a.collaborator_key@ {
                Err(Error::ConstraintSeeds)
            } else {
                Ok(())
            },
        }
    }
}

/// Destroys a collaborator record, revoking its permission immediately and
/// unconditionally; the host refunds its storage stake to the caller.
///
/// Only the event's authority may do so: any other caller fails with
/// `OnlyEventAuthorityCanDeleteCollaborators` and the record stays.
pub fn delete_collaborator(a: &DeleteCollaborator, program_id: &Addr) -> (r: Result<(), Error>)
    ensures
        r == delete_collaborator_check(*a, program_id@),
        a.event.authority@ != a.authority@ ==> r is Err,
{
    let event_seed_list = seeds2(event_tag_bytes(), a.event_base.to_seed());
    if !check_pda(&event_seed_list, program_id, &a.event_key, a.event.bump) {
        return Err(Error::ConstraintSeeds);
    }
    if !(a.event.authority == a.authority) {
        return Err(Error::Code(ErrorCode::OnlyEventAuthorityCanDeleteCollaborators));
    }
    let collaborator_seed_list = seeds3(
        collaborator_tag_bytes(),
        a.event_key.to_seed(),
        a.collaborator_base.to_seed(),
    );
    match find_pda(&collaborator_seed_list, program_id) {
        None => Err(Error::BumpNotFound),
        Some(p) => {
            if !(p.0 == a.collaborator_key) {
                return Err(Error::ConstraintSeeds);
            }
            Ok(())
        },
    }
}

// ------------------------------------------------------------------------
// create_event_ticket / create_proof_of_attendance
// ------------------------------------------------------------------------

/// The outcome of resolving the records `create_event_ticket` touches.
/// `Ok` carries the bumps chosen for the counter record, the ticket mint
/// and the ticket metadata.
pub open spec fn create_event_ticket_check(
    a: CreateEventTicket,
    program: Seq<u8>,
) -> Result<(u8, u8, u8), Error> {
    if !pda_matches(event_seeds_by_base(a.event_base@), program, a.event_key@, a.event.bump) {
        Err(Error::ConstraintSeeds)
    } else {
        match pda_result(event_ticket_seeds(a.event_key@, a.event_ticket_base@), program) {
            None => Err(Error::BumpNotFound),
            Some((et_addr, et_bump)) => if et_addr != a.event_ticket_key@ {
                Err(Error::ConstraintSeeds)
            } else if a.event_ticket_occupied {
                Err(Error::AccountAlreadyInUse)
            } else {
                match pda_result(ticket_mint_seeds2(a.event_key@, a.event_ticket_key@), program) {
                    None => Err(Error::BumpNotFound),
                    Some((tm_addr, tm_bump)) => if tm_addr != a.ticket_mint@ {
                        Err(Error::ConstraintSeeds)
                    } else if a.ticket_mint_occupied {
                        Err(Error::AccountAlreadyInUse)
                    } else {
                        match pda_result(
                            metadata_seeds(a.metadata_program@, a.ticket_mint@),
                            a.metadata_program@,
                        ) {
                            None => Err(Error::BumpNotFound),
                            Some((md_addr, md_bump)) => if md_addr != a.ticket_metadata@ {
                                Err(Error::ConstraintSeeds)
                            } else {
                                Ok((et_bump, tm_bump, md_bump))
                            },
                        }
                    },
                }
            },
        }
    }
}

/// The record created and the metadata sub-call of `create_event_ticket`.
#[derive(Debug)]
pub struct CreateEventTicketOutput {
    /// The new counter record, to be stored at its derived address.
    pub event_ticket: EventTicket,
    /// Display metadata attached to the new ticket mint.
    pub create_metadata: CreateMetadata,
}

/// Creates a ticket counter of an event, with its mint and metadata.
///
/// Succeeds exactly when the event record matches its derived address and
/// the counter record and ticket mint to be created are at their derived
/// addresses and vacant.  The new counter starts at `sold = used = 0` with
/// the given price and quantity, both immutable afterwards; the host then
/// attaches the display metadata under the event's signing authority.
pub fn create_event_ticket(
    a: &CreateEventTicket,
    ticket_name: String,
    ticket_symbol: String,
    ticket_uri: String,
    ticket_price: u32,
    ticket_quantity: u32,
    program_id: &Addr,
) -> (r: Result<CreateEventTicketOutput, Error>)
    ensures
        match create_event_ticket_check(*a, program_id@) {
            Err(e) => r matches Err(e2) && e2 == e,
            Ok(bumps) => r matches Ok(out)
                && out.event_ticket == (EventTicket {
                    price: ticket_price,
                    quantity: ticket_quantity,
                    sold: 0,
                    used: 0,
                    has_poap: false,
                    bump: bumps.0,
                    ticket_mint_bump: bumps.1,
                    ticket_metadata_bump: bumps.2,
                    attendance_mint_bump: 0,
                    attendance_metadata_bump: 0,
                })
                && out.create_metadata.metadata == a.ticket_metadata
                && out.create_metadata.mint == a.ticket_mint
                && out.create_metadata.mint_authority == a.event_key
                && out.create_metadata.payer == a.authority
                && out.create_metadata.update_authority == a.event_key
                && out.create_metadata.name@ == ticket_name@
                && out.create_metadata.symbol@ == ticket_symbol@
                && out.create_metadata.uri@ == ticket_uri@
                && out.create_metadata.uses is None,
        },
        r is Ok ==> (r matches Ok(out) && out.event_ticket.wf()),
{
    let event_seed_list = seeds2(event_tag_bytes(), a.event_base.to_seed());
    if !check_pda(&event_seed_list, program_id, &a.event_key, a.event.bump) {
        return Err(Error::ConstraintSeeds);
    }
    let et_seed_list = seeds3(
        event_ticket_tag_bytes(),
        a.event_key.to_seed(),
        a.event_ticket_base.to_seed(),
    );
    let et_bump: u8 = match find_pda(&et_seed_list, program_id) {
        None => {
            return Err(Error::BumpNotFound);
        },
        Some(p) => {
            if !(p.0 == a.event_ticket_key) {
                return Err(Error::ConstraintSeeds);
            }
            if a.event_ticket_occupied {
                return Err(Error::AccountAlreadyInUse);
            }
            p.1
        },
    };
    let tm_seed_list = seeds3(
        ticket_mint_tag_bytes(),
        a.event_key.to_seed(),
        a.event_ticket_key.to_seed(),
    );
    let tm_bump: u8 = match find_pda(&tm_seed_list, program_id) {
        None => {
            return Err(Error::BumpNotFound);
        },
        Some(p) => {
            if !(p.0 == a.ticket_mint) {
                return Err(Error::ConstraintSeeds);
            }
            if a.ticket_mint_occupied {
                return Err(Error::AccountAlreadyInUse);
            }
            p.1
        },
    };
    let md_seed_list = seeds3(
        metadata_tag_bytes(),
        a.metadata_program.to_seed(),
        a.ticket_mint.to_seed(),
    );
    match find_pda(&md_seed_list, &a.metadata_program) {
        None => Err(Error::BumpNotFound),
        Some(p) => {
            if !(p.0 == a.ticket_metadata) {
                return Err(Error::ConstraintSeeds);
            }
            Ok(CreateEventTicketOutput {
                event_ticket: EventTicket {
                    price: ticket_price,
                    quantity: ticket_quantity,
                    sold: 0,
                    used: 0,
                    has_poap: false,
                    bump: et_bump,
                    ticket_mint_bump: tm_bump,
                    ticket_metadata_bump: p.1,
                    attendance_mint_bump: 0,
                    attendance_metadata_bump: 0,
                },
                create_metadata: CreateMetadata {
                    metadata: a.ticket_metadata,
                    mint: a.ticket_mint,
                    mint_authority: a.event_key,
                    payer: a.authority,
                    update_authority: a.event_key,
                    name: ticket_name,
                    symbol: ticket_symbol,
                    uri: ticket_uri,
                    uses: None,
                },
            })
        },
    }
}

/// The outcome of resolving the records `create_proof_of_attendance`
/// touches.  `Ok` carries the bumps chosen for the attendance mint and its
/// metadata.
pub open spec fn create_proof_of_attendance_check(
    a: CreateProofOfAttendance,
    program: Seq<u8>,
) -> Result<(u8, u8), Error> {
    if !pda_matches(event_seeds_by_base(a.event_base@), program, a.event_key@, a.event.bump) {
        Err(Error::ConstraintSeeds)
    } else if !pda_matches(
        event_ticket_seeds(a.event_key@, a.event_ticket_base@),
        program,
        a.event_ticket_key@,
        a.event_ticket.bump,
    ) {
        Err(Error::ConstraintSeeds)
    } else {
        match pda_result(attendance_mint_seeds(a.event_key@, a.event_ticket_key@), program) {
            None => Err(Error::BumpNotFound),
            Some((am_addr, am_bump)) => if am_addr != a.attendance_mint@ {
                Err(Error::ConstraintSeeds)
            } else if a.attendance_mint_occupied {
                Err(Error::AccountAlreadyInUse)
            } else {
                match pda_result(
                    metadata_seeds(a.metadata_program@, a.attendance_mint@),
                    a.metadata_program@,
                ) {
                    None => Err(Error::BumpNotFound),
                    Some((amd_addr, amd_bump)) => if amd_addr != a.attendance_metadata@ {
                        Err(Error::ConstraintSeeds)
                    } else {
                        Ok((am_bump, amd_bump))
                    },
                }
            },
        }
    }
}

/// Attaches a proof-of-attendance unit to a ticket counter.
///
/// Succeeds exactly when the event and counter records match their derived
/// addresses and the attendance mint to be created is at its derived
/// address and vacant.  On success the counter's `has_poap` flag is set,
/// the chosen bumps are recorded, and the host attaches the display
/// metadata of the attendance unit; on any failure nothing changes.
pub fn create_proof_of_attendance(
    a: &mut CreateProofOfAttendance,
    poap_name: String,
    poap_symbol: String,
    poap_uri: String,
    program_id: &Addr,
) -> (r: Result<CreateMetadata, Error>)
    ensures
        match create_proof_of_attendance_check(*old(a), program_id@) {
            Err(e) => r matches Err(e2) && e2 == e && *final(a) == *old(a),
            Ok(bumps) => r matches Ok(md)
                && *final(a) == (CreateProofOfAttendance {
                    event_ticket: EventTicket {
                        has_poap: true,
                        attendance_mint_bump: bumps.0,
                        attendance_metadata_bump: bumps.1,
                        ..old(a).event_ticket
                    },
                    ..*old(a)
                })
                && md.metadata == old(a).attendance_metadata
                && md.mint == old(a).attendance_mint
                && md.mint_authority == old(a).event_key
                && md.payer == old(a).authority
                && md.update_authority == old(a).event_key
                && md.name@ == poap_name@
                && md.symbol@ == poap_symbol@
                && md.uri@ == poap_uri@
                && md.uses is None,
        },
        r is Err ==> *final(a) == *old(a),
        final(a).event_ticket.sold == old(a).event_ticket.sold,
        final(a).event_ticket.used == old(a).event_ticket.used,
        final(a).event_ticket.quantity == old(a).event_ticket.quantity,
{
    let event_seed_list = seeds2(event_tag_bytes(), a.event_base.to_seed());
    if !check_pda(&event_seed_list, program_id, &a.event_key, a.event.bump) {
        return Err(Error::ConstraintSeeds);
    }
    let et_seed_list = seeds3(
        event_ticket_tag_bytes(),
        a.event_key.to_seed(),
        a.event_ticket_base.to_seed(),
    );
    if !check_pda(&et_seed_list, program_id, &a.event_ticket_key, a.event_ticket.bump) {
        return Err(Error::ConstraintSeeds);
    }
    let am_seed_list = seeds3(
        attendance_mint_tag_bytes(),
        a.event_key.to_seed(),
        a.event_ticket_key.to_seed(),
    );
    let am_bump: u8 = match find_pda(&am_seed_list, program_id) {
        None => {
            return Err(Error::BumpNotFound);
        },
        Some(p) => {
            if !(p.0 == a.attendance_mint) {
                return Err(Error::ConstraintSeeds);
            }
            if a.attendance_mint_occupied {
                return Err(Error::AccountAlreadyInUse);
            }
            p.1
        },
    };
    let amd_seed_list = seeds3(
        metadata_tag_bytes(),
        a.metadata_program.to_seed(),
        a.attendance_mint.to_seed(),
    );
    let amd_bump: u8 = match find_pda(&amd_seed_list, &a.metadata_program) {
        None => {
            return Err(Error::BumpNotFound);
        },
        Some(p) => {
            if !(p.0 == a.attendance_metadata) {
                return Err(Error::ConstraintSeeds);
            }
            p.1
        },
    };
    a.event_ticket.has_poap = true;
    a.event_ticket.attendance_mint_bump = am_bump;
    a.event_ticket.attendance_metadata_bump = amd_bump;
    Ok(CreateMetadata {
        metadata: a.attendance_metadata,
        mint: a.attendance_mint,
        mint_authority: a.event_key,
        payer: a.authority,
        update_authority: a.event_key,
        name: poap_name,
        symbol: poap_symbol,
        uri: poap_uri,
        uses: None,
    })
}

// ------------------------------------------------------------------------
// buy_tickets
// ------------------------------------------------------------------------

/// The outcome of the checks of `buy_tickets`, in the order the runtime
/// performs them: the event's and counter's derived addresses, the sale
/// precondition `sold + quantity <= quantity_total`, the buyer's payment
/// unit, then the vault and mint addresses.
pub open spec fn buy_tickets_check(
    a: BuyTickets,
    ticket_quantity: u32,
    program: Seq<u8>,
) -> Result<(), Error> {
    if !pda_matches(event_seeds_by_base(a.event_base@), program, a.event_key@, a.event.bump) {
        Err(Error::ConstraintSeeds)
    } else if !pda_matches(
        event_ticket_seeds(a.event_key@, a.event_ticket_base@),
        program,
        a.event_ticket_key@,
        a.event_ticket.bump,
    ) {
        Err(Error::ConstraintSeeds)
    } else if a.event_ticket.quantity < a.event_ticket.sold + ticket_quantity {
        Err(Error::Code(ErrorCode::NotEnoughTicketsAvailable))
    } else if a.buyer_vault_mint@ != a.event.accepted_mint@ {
        Err(Error::ConstraintRaw)
    } else if !pda_matches(
        event_vault_seeds(a.event_key@),
        program,
        a.event_vault@,
        a.event.event_vault_bump,
    ) {
        Err(Error::ConstraintSeeds)
    } else if !pda_matches(
        ticket_mint_seeds2(a.event_key@, a.event_ticket_key@),
        program,
        a.ticket_mint@,
        a.event_ticket.ticket_mint_bump,
    ) {
        Err(Error::ConstraintSeeds)
    } else if a.ticket_vault_mint@ != a.ticket_mint@ {
        Err(Error::ConstraintRaw)
    } else {
        Ok(())
    }
}

/// The external sub-calls of a successful batch sale.
#[derive(Debug)]
pub struct BuyTicketsOutput {
    /// Payment: `price * quantity` value units from the buyer's vault to
    /// the event's.
    pub transfer: Transfer,
    /// The bought units minted to the buyer, under the event's authority.
    pub mint_to: MintTo,
}

/// Sells a batch of tickets against a counter.
///
/// Requires `price * quantity` to fit the counter's 32-bit price space:
/// the charge is computed there and would overflow otherwise.  Succeeds
/// exactly when the
/// referenced records re-derive to their claimed addresses, the sale
/// precondition `sold + quantity <= quantity_total` holds, and the buyer
/// pays in the event's accepted unit into the correct vaults.  On success
/// `sold` rises by the batch size and the host transfers exactly
/// `price * quantity` value units and mints the batch to the buyer; when
/// the counter is exhausted the sale fails with
/// `NotEnoughTicketsAvailable` and `sold` is unchanged.
pub fn buy_tickets(
    a: &mut BuyTickets,
    ticket_quantity: u32,
    program_id: &Addr,
) -> (r: Result<BuyTicketsOutput, Error>)
    requires
        old(a).event_ticket.price * ticket_quantity <= u32::MAX,
    ensures
        match buy_tickets_check(*old(a), ticket_quantity, program_id@) {
            Err(e) => r matches Err(e2) && e2 == e && *final(a) == *old(a),
            Ok(()) => r matches Ok(out)
                && *final(a) == (BuyTickets {
                    event_ticket: EventTicket {
                        sold: (old(a).event_ticket.sold + ticket_quantity) as u32,
                        ..old(a).event_ticket
                    },
                    ..*old(a)
                })
                && out.transfer == (Transfer {
                    from: old(a).buyer_vault,
                    to: old(a).event_vault,
                    authority: old(a).authority,
                    amount: (old(a).event_ticket.price * ticket_quantity) as u64,
                })
                && out.mint_to == (MintTo {
                    mint: old(a).ticket_mint,
                    to: old(a).ticket_vault,
                    authority: old(a).event_key,
                    amount: ticket_quantity as u64,
                }),
        },
        old(a).event_ticket.sold + ticket_quantity > old(a).event_ticket.quantity ==> r is Err
            && final(a).event_ticket.sold == old(a).event_ticket.sold,
        r is Err ==> *final(a) == *old(a),
        old(a).event_ticket.wf() ==> final(a).event_ticket.wf(),
        final(a).event_ticket.quantity == old(a).event_ticket.quantity,
        final(a).event_ticket.price == old(a).event_ticket.price,
        final(a).event_ticket.used == old(a).event_ticket.used,
{
    let event_seed_list = seeds2(event_tag_bytes(), a.event_base.to_seed());
    if !check_pda(&event_seed_list, program_id, &a.event_key, a.event.bump) {
        return Err(Error::ConstraintSeeds);
    }
    let et_seed_list = seeds3(
        event_ticket_tag_bytes(),
        a.event_key.to_seed(),
        a.event_ticket_base.to_seed(),
    );
    if !check_pda(&et_seed_list, program_id, &a.event_ticket_key, a.event_ticket.bump) {
        return Err(Error::ConstraintSeeds);
    }
    if (a.event_ticket.quantity as u64) < (a.event_ticket.sold as u64) + (ticket_quantity as u64) {
        return Err(Error::Code(ErrorCode::NotEnoughTicketsAvailable));
    }
    if !(a.buyer_vault_mint == a.event.accepted_mint) {
        return Err(Error::ConstraintRaw);
    }
    let vault_seed_list = seeds2(event_vault_tag_bytes(), a.event_key.to_seed());
    if !check_pda(&vault_seed_list, program_id, &a.event_vault, a.event.event_vault_bump) {
        return Err(Error::ConstraintSeeds);
    }
    let tm_seed_list = seeds3(
        ticket_mint_tag_bytes(),
        a.event_key.to_seed(),
        a.event_ticket_key.to_seed(),
    );
    if !check_pda(&tm_seed_list, program_id, &a.ticket_mint, a.event_ticket.ticket_mint_bump) {
        return Err(Error::ConstraintSeeds);
    }
    if !(a.ticket_vault_mint == a.ticket_mint) {
        return Err(Error::ConstraintRaw);
    }
    let amount: u32 = a.event_ticket.price * ticket_quantity;
    a.event_ticket.sold = a.event_ticket.sold + ticket_quantity;
    Ok(BuyTicketsOutput {
        transfer: Transfer {
            from: a.buyer_vault,
            to: a.event_vault,
            authority: a.authority,
            amount: amount as u64,
        },
        mint_to: MintTo {
            mint: a.ticket_mint,
            to: a.ticket_vault,
            authority: a.event_key,
            amount: ticket_quantity as u64,
        },
    })
}

// ------------------------------------------------------------------------
// check_in / check_in_with_attendance
// ------------------------------------------------------------------------

/// The outcome of the checks of `check_in`, in the order the runtime
/// performs them: the derived addresses of event, collaborator and
/// counter, the redemption precondition `sold - used >= quantity`, the
/// mint and vault, then the counter's attendance mode.
pub open spec fn check_in_check(
    a: CheckIn,
    ticket_quantity: u32,
    program: Seq<u8>,
) -> Result<(), Error> {
    if !pda_matches(event_seeds_by_base(a.event_base@), program, a.event_key@, a.event.bump) {
        Err(Error::ConstraintSeeds)
    } else if pda_result(collaborator_seeds(a.event_key@, a.collaborator_base@), program)
        is None {
        Err(Error::BumpNotFound)
    } else if !pda_addr_matches(
        collaborator_seeds(a.event_key@, a.collaborator_base@),
        program,
        a.collaborator_key@,
    ) {
        Err(Error::ConstraintSeeds)
    } else if !pda_matches(
        event_ticket_seeds(a.event_key@, a.event_ticket_base@),
        program,
        a.event_ticket_key@,
        a.event_ticket.bump,
    ) {
        Err(Error::ConstraintSeeds)
    } else if a.event_ticket.sold - a.event_ticket.used < ticket_quantity {
        Err(Error::Code(ErrorCode::NotEnoughTicketsToCheckIn))
    } else if !pda_matches(
        ticket_mint_seeds2(a.event_key@, a.event_ticket_key@),
        program,
        a.ticket_mint@,
        a.event_ticket.ticket_mint_bump,
    ) {
        Err(Error::ConstraintSeeds)
    } else if a.ticket_vault_mint@ != a.ticket_mint@ {
        Err(Error::ConstraintRaw)
    } else if a.event_ticket.has_poap {
        Err(Error::Code(ErrorCode::CheckInIsOnlyAvailableForTicketsWithoutAttendance))
    } else {
        Ok(())
    }
}

/// Redeems a batch of tickets, for counters without attendance proof.
///
/// Requires the counter's invariant `used <= sold`.  Succeeds exactly when
/// the referenced records re-derive to their claimed addresses (the
/// collaborator record derived from the first signer being the redemption
/// permission), the redemption precondition `sold - used >= quantity`
/// holds, and the counter has no attendance proof attached.  On success
/// `used` rises by the batch size and the host burns the redeemed units
/// from the attendee's vault; on any failure nothing changes.
pub fn check_in(
    a: &mut CheckIn,
    ticket_quantity: u32,
    program_id: &Addr,
) -> (r: Result<Burn, Error>)
    requires
        old(a).event_ticket.used <= old(a).event_ticket.sold,
    ensures
        match check_in_check(*old(a), ticket_quantity, program_id@) {
            Err(e) => r matches Err(e2) && e2 == e && *final(a) == *old(a),
            Ok(()) => r matches Ok(burn)
                && *final(a) == (CheckIn {
                    event_ticket: EventTicket {
                        used: (old(a).event_ticket.used + ticket_quantity) as u32,
                        ..old(a).event_ticket
                    },
                    ..*old(a)
                })
                && burn == (Burn {
                    mint: old(a).ticket_mint,
                    from: old(a).ticket_vault,
                    authority: old(a).attendee,
                    amount: ticket_quantity as u64,
                }),
        },
        old(a).event_ticket.sold - old(a).event_ticket.used < ticket_quantity ==> r is Err
            && final(a).event_ticket.used == old(a).event_ticket.used,
        r is Err ==> *final(a) == *old(a),
        old(a).event_ticket.wf() ==> final(a).event_ticket.wf(),
        final(a).event_ticket.sold == old(a).event_ticket.sold,
{
    let event_seed_list = seeds2(event_tag_bytes(), a.event_base.to_seed());
    if !check_pda(&event_seed_list, program_id, &a.event_key, a.event.bump) {
        return Err(Error::ConstraintSeeds);
    }
    let collaborator_seed_list = seeds3(
        collaborator_tag_bytes(),
        a.event_key.to_seed(),
        a.collaborator_base.to_seed(),
    );
    match find_pda(&collaborator_seed_list, program_id) {
        None => {
            return Err(Error::BumpNotFound);
        },
        Some(p) => {
            if !(p.0 == a.collaborator_key) {
                return Err(Error::ConstraintSeeds);
            }
        },
    };
    let et_seed_list = seeds3(
        event_ticket_tag_bytes(),
        a.event_key.to_seed(),
        a.event_ticket_base.to_seed(),
    );
    if !check_pda(&et_seed_list, program_id, &a.event_ticket_key, a.event_ticket.bump) {
        return Err(Error::ConstraintSeeds);
    }
    if a.event_ticket.sold - a.event_ticket.used < ticket_quantity {
        return Err(Error::Code(ErrorCode::NotEnoughTicketsToCheckIn));
    }
    let tm_seed_list = seeds3(
        ticket_mint_tag_bytes(),
        a.event_key.to_seed(),
        a.event_ticket_key.to_seed(),
    );
    if !check_pda(&tm_seed_list, program_id, &a.ticket_mint, a.event_ticket.ticket_mint_bump) {
        return Err(Error::ConstraintSeeds);
    }
    if !(a.ticket_vault_mint == a.ticket_mint) {
        return Err(Error::ConstraintRaw);
    }
    if a.event_ticket.has_poap {
        return Err(Error::Code(ErrorCode::CheckInIsOnlyAvailableForTicketsWithoutAttendance));
    }
    a.event_ticket.used = a.event_ticket.used + ticket_quantity;
    Ok(Burn {
        mint: a.ticket_mint,
        from: a.ticket_vault,
        authority: a.attendee,
        amount: ticket_quantity as u64,
    })
}

/// The outcome of the checks of `check_in_with_attendance`.
pub open spec fn check_in_with_attendance_check(
    a: CheckInWithAttendance,
    ticket_quantity: u32,
    program: Seq<u8>,
) -> Result<(), Error> {
    if !pda_matches(event_seeds_by_base(a.event_base@), program, a.event_key@, a.event.bump) {
        Err(Error::ConstraintSeeds)
    } else if pda_result(collaborator_seeds(a.event_key@, a.collaborator_base@), program)
        is None {
        Err(Error::BumpNotFound)
    } else if !pda_addr_matches(
        collaborator_seeds(a.event_key@, a.collaborator_base@),
        program,
        a.collaborator_key@,
    ) {
        Err(Error::ConstraintSeeds)
    } else if !pda_matches(
        event_ticket_seeds(a.event_key@, a.event_ticket_base@),
        program,
        a.event_ticket_key@,
        a.event_ticket.bump,
    ) {
        Err(Error::ConstraintSeeds)
    } else if a.event_ticket.sold - a.event_ticket.used < ticket_quantity {
        Err(Error::Code(ErrorCode::NotEnoughTicketsToCheckIn))
    } else if !pda_matches(
        ticket_mint_seeds2(a.event_key@, a.event_ticket_key@),
        program,
        a.ticket_mint@,
        a.event_ticket.ticket_mint_bump,
    ) {
        Err(Error::ConstraintSeeds)
    } else if a.ticket_vault_mint@ != a.ticket_mint@ {
        Err(Error::ConstraintRaw)
    } else if !pda_matches(
        attendance_mint_seeds(a.event_key@, a.event_ticket_key@),
        program,
        a.attendance_mint@,
        a.event_ticket.attendance_mint_bump,
    ) {
        Err(Error::ConstraintSeeds)
    } else if a.attendance_vault_mint@ != a.attendance_mint@ {
        Err(Error::ConstraintRaw)
    } else {
        Ok(())
    }
}

/// The external sub-calls of a successful redemption with attendance.
#[derive(Debug)]
pub struct CheckInWithAttendanceOutput {
    /// The redeemed units burnt from the attendee's vault.
    pub burn: Burn,
    /// The attendance-proof units minted to the attendee, under the
    /// event's authority.
    pub mint_to: MintTo,
}

/// Redeems a batch of tickets and mints attendance proof for them.
///
/// Requires the counter's invariant `used <= sold`.  Succeeds exactly when
/// the referenced records re-derive to their claimed addresses and the
/// redemption precondition `sold - used >= quantity` holds.  On success
/// `used` rises by the batch size, the redeemed units are burnt from the
/// attendee's vault and the same number of attendance-proof units is
/// minted to the attendee; on any failure nothing changes.
pub fn check_in_with_attendance(
    a: &mut CheckInWithAttendance,
    ticket_quantity: u32,
    program_id: &Addr,
) -> (r: Result<CheckInWithAttendanceOutput, Error>)
    requires
        old(a).event_ticket.used <= old(a).event_ticket.sold,
    ensures
        match check_in_with_attendance_check(*old(a), ticket_quantity, program_id@) {
            Err(e) => r matches Err(e2) && e2 == e && *final(a) == *old(a),
            Ok(()) => r matches Ok(out)
                && *final(a) == (CheckInWithAttendance {
                    event_ticket: EventTicket {
                        used: (old(a).event_ticket.used + ticket_quantity) as u32,
                        ..old(a).event_ticket
                    },
                    ..*old(a)
                })
                && out.burn == (Burn {
                    mint: old(a).ticket_mint,
                    from: old(a).ticket_vault,
                    authority: old(a).attendee,
                    amount: ticket_quantity as u64,
                })
                && out.mint_to == (MintTo {
                    mint: old(a).attendance_mint,
                    to: old(a).attendance_vault,
                    authority: old(a).event_key,
                    amount: ticket_quantity as u64,
                }),
        },
        old(a).event_ticket.sold - old(a).event_ticket.used < ticket_quantity ==> r is Err
            && final(a).event_ticket.used == old(a).event_ticket.used,
        r is Err ==> *final(a) == *old(a),
        old(a).event_ticket.wf() ==> final(a).event_ticket.wf(),
        final(a).event_ticket.sold == old(a).event_ticket.sold,
{
    let event_seed_list = seeds2(event_tag_bytes(), a.event_base.to_seed());
    if !check_pda(&event_seed_list, program_id, &a.event_key, a.event.bump) {
        return Err(Error::ConstraintSeeds);
    }
    let collaborator_seed_list = seeds3(
        collaborator_tag_bytes(),
        a.event_key.to_seed(),
        a.collaborator_base.to_seed(),
    );
    match find_pda(&collaborator_seed_list, program_id) {
        None => {
            return Err(Error::BumpNotFound);
        },
        Some(p) => {
            if !(p.0 == a.collaborator_key) {
                return Err(Error::ConstraintSeeds);
            }
        },
    };
    let et_seed_list = seeds3(
        event_ticket_tag_bytes(),
        a.event_key.to_seed(),
        a.event_ticket_base.to_seed(),
    );
    if !check_pda(&et_seed_list, program_id, &a.event_ticket_key, a.event_ticket.bump) {
        return Err(Error::ConstraintSeeds);
    }
    if a.event_ticket.sold - a.event_ticket.used < ticket_quantity {
        return Err(Error::Code(ErrorCode::NotEnoughTicketsToCheckIn));
    }
    let tm_seed_list = seeds3(
        ticket_mint_tag_bytes(),
        a.event_key.to_seed(),
        a.event_ticket_key.to_seed(),
    );
    if !check_pda(&tm_seed_list, program_id, &a.ticket_mint, a.event_ticket.ticket_mint_bump) {
        return Err(Error::ConstraintSeeds);
    }
    if !(a.ticket_vault_mint == a.ticket_mint) {
        return Err(Error::ConstraintRaw);
    }
    let am_seed_list = seeds3(
        attendance_mint_tag_bytes(),
        a.event_key.to_seed(),
        a.event_ticket_key.to_seed(),
    );
    if !check_pda(
        &am_seed_list,
        program_id,
        &a.attendance_mint,
        a.event_ticket.attendance_mint_bump,
    ) {
        return Err(Error::ConstraintSeeds);
    }
    if !(a.attendance_vault_mint == a.attendance_mint) {
        return Err(Error::ConstraintRaw);
    }
    a.event_ticket.used = a.event_ticket.used + ticket_quantity;
    Ok(CheckInWithAttendanceOutput {
        burn: Burn {
            mint: a.ticket_mint,
            from: a.ticket_vault,
            authority: a.attendee,
            amount: ticket_quantity as u64,
        },
        mint_to: MintTo {
            mint: a.attendance_mint,
            to: a.attendance_vault,
            authority: a.event_key,
            amount: ticket_quantity as u64,
        },
    })
}

} // verus!
