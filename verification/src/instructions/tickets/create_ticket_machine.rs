//! Creating a ticket machine: the bounded-supply counter of one ticket kind.

use vstd::prelude::*;
use crate::collections::{Event, TicketMachine};
use crate::errors::Error;
use crate::pda::{
    check_pda, clone_bytes, event_seeds_by_id, event_tag_bytes, find_pda, pda_matches, pda_result,
    seeds2, seeds3, ticket_machine_seeds, ticket_machine_tag_bytes, Addr,
};

verus! {

/// The records and identities referenced by one `CreateTicketMachine` call.
///
/// `authority` is the identity whose signature the host runtime has already
/// verified; it pays for the new record but is not otherwise checked, so any
/// signer may create a machine under an event.  `ticket_machine_occupied`
/// reports whether a record already exists at the machine's derived address.
pub struct CreateTicketMachine {
    pub authority: Addr,
    /// The event record, stored at `event_key`.
    pub event: Event,
    pub event_key: Addr,
    pub ticket_machine_key: Addr,
    pub ticket_machine_occupied: bool,
}

/// The outcome of resolving the referenced records, in the order the runtime
/// checks them: the event's derived address, then the machine's derived
/// address and its vacancy.  `Ok` carries the bump chosen for the machine.
pub open spec fn create_ticket_machine_check(
    a: CreateTicketMachine,
    event_id: Seq<u8>,
    ticket_id: Seq<u8>,
    program: Seq<u8>,
) -> Result<u8, Error> {
    if !pda_matches(event_seeds_by_id(event_id), program, a.event_key@, a.event.bump) {
        Err(Error::ConstraintSeeds)
    } else {
        match pda_result(ticket_machine_seeds(a.event_key@, ticket_id), program) {
            None => Err(Error::BumpNotFound),
            Some((addr, bump)) => if addr != a.ticket_machine_key@ {
                Err(Error::ConstraintSeeds)
            } else if a.ticket_machine_occupied {
                Err(Error::AccountAlreadyInUse)
            } else {
                Ok(bump)
            },
        }
    }
}

/// Creates a ticket machine under an event.
///
/// Succeeds exactly when the event record matches its derived address and
/// the machine's derived address matches the given key and is vacant.  The
/// new machine starts with the given display metadata, price, quantity and
/// per-unit use allowance, and with `sold` and `used` at zero; price and
/// quantity are never changed afterwards.
pub fn handle(
    a: &CreateTicketMachine,
    ticket_name: String,
    ticket_symbol: String,
    ticket_uri: String,
    ticket_price: u64,
    ticket_quantity: u64,
    ticket_uses: u64,
    event_id: &Vec<u8>,
    ticket_id: &Vec<u8>,
    program_id: &Addr,
) -> (r: Result<TicketMachine, Error>)
    ensures
        match create_ticket_machine_check(*a, event_id@, ticket_id@, program_id@) {
            Ok(bump) => r matches Ok(m)
                && m.name@ == ticket_name@
                && m.symbol@ == ticket_symbol@
                && m.uri@ == ticket_uri@
                && m.price == ticket_price
                && m.quantity == ticket_quantity
                && m.uses == ticket_uses
                && m.sold == 0
                && m.used == 0
                && m.bump == bump,
            Err(e) => r matches Err(e2) && e2 == e,
        },
        r is Ok ==> (r matches Ok(m) && m.wf()),
{
    let event_seed_list = seeds2(event_tag_bytes(), clone_bytes(event_id));
    if !check_pda(&event_seed_list, program_id, &a.event_key, a.event.bump) {
        return Err(Error::ConstraintSeeds);
    }
    let machine_seed_list = seeds3(
        ticket_machine_tag_bytes(),
        a.event_key.to_seed(),
        clone_bytes(ticket_id),
    );
    match find_pda(&machine_seed_list, program_id) {
        None => Err(Error::BumpNotFound),
        Some(p) => {
            if !(p.0 == a.ticket_machine_key) {
                return Err(Error::ConstraintSeeds);
            }
            if a.ticket_machine_occupied {
                return Err(Error::AccountAlreadyInUse);
            }
            Ok(TicketMachine {
                name: ticket_name,
                symbol: ticket_symbol,
                uri: ticket_uri,
                price: ticket_price,
                quantity: ticket_quantity,
                uses: ticket_uses,
                sold: 0,
                used: 0,
                bump: p.1,
            })
        },
    }
}

} // verus!
