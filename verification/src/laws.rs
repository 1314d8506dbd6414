//! The program-wide laws of the inventory, ownership and redemption
//! engines, stated over the same spec functions the operations' contracts
//! use.

use vstd::prelude::*;
use crate::collections::{Ticket, TicketMachine};
use crate::errors::{Error, ErrorCode};
use crate::instructions::tickets::mint_ticket::{mint_ticket_check, MintTicket};
use crate::instructions::tickets::set_ticket_authority::{
    set_ticket_authority_check, SetTicketAuthority,
};
use crate::pda::{pda_matches, pda_result, ticket_seeds};
use crate::EventTicket;

verus! {

// ------------------------------------------------------------------------
// The inventory engine never oversells
// ------------------------------------------------------------------------

/// One sale attempt against a machine: `sold` rises by one when capacity
/// remains, otherwise the machine is left unchanged — exactly the two
/// outcomes `instructions::tickets::mint_ticket::handle` allows for the
/// machine record.
pub open spec fn machine_sell(m: TicketMachine) -> TicketMachine {
    if m.sold + 1 <= m.quantity {
        TicketMachine { sold: (m.sold + 1) as u64, ..m }
    } else {
        m
    }
}

/// The machine after `n` sale attempts.
pub open spec fn machine_run_sales(m: TicketMachine, n: nat) -> TicketMachine
    decreases n,
{
    if n == 0 {
        m
    } else {
        machine_sell(machine_run_sales(m, (n - 1) as nat))
    }
}

/// Law: under any sequence of sale attempts, a machine that starts with
/// `sold <= quantity` keeps `sold <= quantity`, and its quantity, price and
/// used counter never move.
pub proof fn lemma_machine_sales_never_oversell(m: TicketMachine, n: nat)
    requires
        m.sold <= m.quantity,
    ensures
        machine_run_sales(m, n).sold <= machine_run_sales(m, n).quantity,
        machine_run_sales(m, n).quantity == m.quantity,
        machine_run_sales(m, n).price == m.price,
        machine_run_sales(m, n).used == m.used,
    decreases n,
{
    if n > 0 {
        lemma_machine_sales_never_oversell(m, (n - 1) as nat);
    }
}

/// Law: a sale passes its checks only while `sold < quantity`; and at
/// capacity, once the referenced records have resolved, the failure is
/// exactly `NotEnoughTicketsAvailable`.
pub proof fn lemma_mint_ticket_capacity(a: MintTicket, event_id: Seq<u8>, program: Seq<u8>)
    ensures
        mint_ticket_check(a, event_id, program) is Ok ==> a.ticket_machine.sold
            < a.ticket_machine.quantity,
        a.ticket_machine.sold >= a.ticket_machine.quantity && mint_ticket_check(
            a,
            event_id,
            program,
        ) != Err::<(u8, u8, u8, u8), Error>(Error::ConstraintSeeds) ==> mint_ticket_check(
            a,
            event_id,
            program,
        ) == Err::<(u8, u8, u8, u8), Error>(Error::Code(ErrorCode::NotEnoughTicketsAvailable)),
{
}

/// One batch sale attempt against a counter of the first generation:
/// `sold` rises by the batch size when capacity remains, otherwise the
/// counter is left unchanged — exactly the two outcomes
/// `disco::buy_tickets` allows for the counter record.
pub open spec fn counter_sell(m: EventTicket, qty: u32) -> EventTicket {
    if m.sold + qty <= m.quantity {
        EventTicket { sold: (m.sold + qty) as u32, ..m }
    } else {
        m
    }
}

/// The counter after a sequence of batch sale attempts.
pub open spec fn counter_run_sales(m: EventTicket, amounts: Seq<u32>) -> EventTicket
    decreases amounts.len(),
{
    if amounts.len() == 0 {
        m
    } else {
        counter_run_sales(counter_sell(m, amounts[0]), amounts.drop_first())
    }
}

/// Law: under any sequence of batch sale attempts, a counter that starts
/// with `sold <= quantity` keeps `sold <= quantity`, and its quantity,
/// price and used counter never move.
pub proof fn lemma_counter_sales_never_oversell(m: EventTicket, amounts: Seq<u32>)
    requires
        m.sold <= m.quantity,
    ensures
        counter_run_sales(m, amounts).sold <= counter_run_sales(m, amounts).quantity,
        counter_run_sales(m, amounts).quantity == m.quantity,
        counter_run_sales(m, amounts).price == m.price,
        counter_run_sales(m, amounts).used == m.used,
    decreases amounts.len(),
{
    if amounts.len() > 0 {
        lemma_counter_sales_never_oversell(counter_sell(m, amounts[0]), amounts.drop_first());
    }
}

/// Law: a batch sale passes its checks only while the batch still fits,
/// and an exhausted counter, once the referenced records have resolved,
/// fails exactly with `NotEnoughTicketsAvailable`.
pub proof fn lemma_buy_tickets_capacity(a: crate::BuyTickets, qty: u32, program: Seq<u8>)
    ensures
        crate::disco::buy_tickets_check(a, qty, program) is Ok ==> a.event_ticket.sold + qty
            <= a.event_ticket.quantity,
        a.event_ticket.sold + qty > a.event_ticket.quantity && crate::disco::buy_tickets_check(
            a,
            qty,
            program,
        ) != Err::<(), crate::Error>(crate::Error::ConstraintSeeds) ==> crate::disco::buy_tickets_check(
            a,
            qty,
            program,
        ) == Err::<(), crate::Error>(crate::Error::Code(
            crate::ErrorCode::NotEnoughTicketsAvailable,
        )),
{
}

/// One operation on a machine's counters: a sale attempt, or a redemption.
/// A redemption applies only while an unredeemed sold unit remains —
/// `instructions::events::check_in::handle` demands exactly that of its
/// caller.
pub enum MachineOp {
    /// Sell one unit, if capacity remains.
    Sell,
    /// Redeem one sold unit, if one remains unredeemed.
    Redeem,
}

/// The machine's counters after one operation.
pub open spec fn machine_step(m: TicketMachine, op: MachineOp) -> TicketMachine {
    match op {
        MachineOp::Sell => machine_sell(m),
        MachineOp::Redeem => if m.used < m.sold {
            TicketMachine { used: (m.used + 1) as u64, ..m }
        } else {
            m
        },
    }
}

/// The machine after a sequence of sales and redemptions.
pub open spec fn machine_run(m: TicketMachine, ops: Seq<MachineOp>) -> TicketMachine
    decreases ops.len(),
{
    if ops.len() == 0 {
        m
    } else {
        machine_run(machine_step(m, ops[0]), ops.drop_first())
    }
}

/// Law: the inventory invariant `used <= sold <= quantity` is preserved
/// under every interleaving of sales and redemptions.
pub proof fn lemma_machine_invariant_preserved(m: TicketMachine, ops: Seq<MachineOp>)
    requires
        m.wf(),
    ensures
        machine_run(m, ops).wf(),
        machine_run(m, ops).quantity == m.quantity,
    decreases ops.len(),
{
    if ops.len() > 0 {
        lemma_machine_invariant_preserved(machine_step(m, ops[0]), ops.drop_first());
    }
}

/// One operation on a batch counter: a sale or a redemption of a batch.
/// A redemption applies only while the batch fits the sold, unredeemed
/// units — `disco::check_in` checks exactly that.
pub enum CounterOp {
    /// Sell a batch, if it still fits.
    Sell(u32),
    /// Redeem a batch, if that many sold units remain unredeemed.
    Redeem(u32),
}

/// The counter after one operation.
pub open spec fn counter_step(m: EventTicket, op: CounterOp) -> EventTicket {
    match op {
        CounterOp::Sell(qty) => counter_sell(m, qty),
        CounterOp::Redeem(qty) => if m.used + qty <= m.sold {
            EventTicket { used: (m.used + qty) as u32, ..m }
        } else {
            m
        },
    }
}

/// The counter after a sequence of sales and redemptions.
pub open spec fn counter_run(m: EventTicket, ops: Seq<CounterOp>) -> EventTicket
    decreases ops.len(),
{
    if ops.len() == 0 {
        m
    } else {
        counter_run(counter_step(m, ops[0]), ops.drop_first())
    }
}

/// Law: the inventory invariant `used <= sold <= quantity` is preserved
/// under every interleaving of batch sales and batch redemptions.
pub proof fn lemma_counter_invariant_preserved(m: EventTicket, ops: Seq<CounterOp>)
    requires
        m.wf(),
    ensures
        counter_run(m, ops).wf(),
        counter_run(m, ops).quantity == m.quantity,
    decreases ops.len(),
{
    if ops.len() > 0 {
        lemma_counter_invariant_preserved(counter_step(m, ops[0]), ops.drop_first());
    }
}

// ------------------------------------------------------------------------
// Check-in is irreversible, and ownership transfer is gated
// ------------------------------------------------------------------------

/// One operation on a ticket record, as the later generation allows them:
/// a check-in, or an authority transfer by some caller.
pub enum TicketOp {
    /// Redeem the ticket.
    CheckIn,
    /// Reassign the ticket to `new_authority`, attempted by `caller`.
    SetAuthority { caller: crate::pda::Addr, new_authority: crate::pda::Addr, vault_bump: u8 },
}

/// The ticket after one operation: a check-in marks it redeemed once and
/// for all; an authority transfer applies only when the caller is the
/// current authority and the ticket is not checked in.  These are exactly
/// the record transitions that `instructions::events::check_in::handle`
/// and `instructions::tickets::set_ticket_authority::handle` allow.
pub open spec fn ticket_step(t: Ticket, op: TicketOp) -> Ticket {
    match op {
        TicketOp::CheckIn => if !t.checked_in {
            Ticket { checked_in: true, ..t }
        } else {
            t
        },
        TicketOp::SetAuthority { caller, new_authority, vault_bump } => if t.authority@ == caller@
            && !t.checked_in {
            Ticket { authority: new_authority, associated_token_bump: vault_bump, ..t }
        } else {
            t
        },
    }
}

/// The ticket after a sequence of operations.
pub open spec fn ticket_run(t: Ticket, ops: Seq<TicketOp>) -> Ticket
    decreases ops.len(),
{
    if ops.len() == 0 {
        t
    } else {
        ticket_run(ticket_step(t, ops[0]), ops.drop_first())
    }
}

/// Law: once a ticket is checked in it stays checked in under every
/// sequence of further operations, and its authority never changes again.
pub proof fn lemma_checked_in_is_permanent(t: Ticket, ops: Seq<TicketOp>)
    requires
        t.checked_in,
    ensures
        ticket_run(t, ops).checked_in,
        ticket_run(t, ops).authority == t.authority,
    decreases ops.len(),
{
    if ops.len() > 0 {
        lemma_checked_in_is_permanent(ticket_step(t, ops[0]), ops.drop_first());
    }
}

/// Law: an authority transfer passes its checks only when the ticket is
/// not checked in; on a checked-in ticket whose record resolves and whose
/// caller is the recorded authority, the failure is exactly
/// `CheckedInTicketsCantChangeAuthority`.
pub proof fn lemma_checked_in_blocks_transfer(
    a: SetTicketAuthority,
    vault_bump: u8,
    program: Seq<u8>,
)
    ensures
        set_ticket_authority_check(a, vault_bump, program) is Ok ==> !a.ticket.checked_in,
        a.ticket.checked_in && pda_matches(
            ticket_seeds(a.ticket_mint@),
            program,
            a.ticket_key@,
            a.ticket.bump,
        ) && a.ticket.authority@ == a.authority@ ==> set_ticket_authority_check(
            a,
            vault_bump,
            program,
        ) == Err::<(), Error>(Error::Code(ErrorCode::CheckedInTicketsCantChangeAuthority)),
{
}

/// Law: an authority transfer passes its checks only when the caller is
/// the ticket's recorded authority; for any other caller whose ticket
/// record resolves, the failure is exactly
/// `OnlyTicketAuthorityCanChangeAuthority`.
pub proof fn lemma_only_authority_transfers(
    a: SetTicketAuthority,
    vault_bump: u8,
    program: Seq<u8>,
)
    ensures
        set_ticket_authority_check(a, vault_bump, program) is Ok ==> a.ticket.authority@
            == a.authority@,
        a.ticket.authority@ != a.authority@ && pda_matches(
            ticket_seeds(a.ticket_mint@),
            program,
            a.ticket_key@,
            a.ticket.bump,
        ) ==> set_ticket_authority_check(a, vault_bump, program) == Err::<(), Error>(Error::Code(
            ErrorCode::OnlyTicketAuthorityCanChangeAuthority,
        )),
{
}

// ------------------------------------------------------------------------
// Collaborator records answer to the event's authority alone
// ------------------------------------------------------------------------

/// Law: in the later generation, creating or deleting a collaborator
/// passes its checks only when the caller is the event's authority.
pub proof fn lemma_collaborators_answer_to_event_authority(
    c: crate::instructions::collaborators::create_collaborator::CreateCollaborator,
    d: crate::instructions::collaborators::delete_collaborator::DeleteCollaborator,
    event_id: Seq<u8>,
    program: Seq<u8>,
)
    ensures
        crate::instructions::collaborators::create_collaborator::create_collaborator_check(
            c,
            event_id,
            program,
        ) is Ok ==> c.event.authority@ == c.authority@,
        crate::instructions::collaborators::delete_collaborator::delete_collaborator_check(
            d,
            event_id,
            program,
        ) is Ok ==> d.event.authority@ == d.authority@,
{
}

/// Law: in the first generation too, collaborator records answer to the
/// event's authority alone; any other caller whose event record resolves
/// fails with exactly the respective authorization error.
pub proof fn lemma_batch_collaborators_answer_to_event_authority(
    c: crate::CreateCollaborator,
    d: crate::DeleteCollaborator,
    program: Seq<u8>,
)
    ensures
        crate::disco::create_collaborator_check(c, program) is Ok ==> c.event.authority@
            == c.authority@,
        crate::disco::delete_collaborator_check(d, program) is Ok ==> d.event.authority@
            == d.authority@,
        c.event.authority@ != c.authority@ && pda_matches(
            crate::pda::event_seeds_by_base(c.event_base@),
            program,
            c.event_key@,
            c.event.bump,
        ) ==> crate::disco::create_collaborator_check(c, program) == Err::<u8, crate::Error>(
            crate::Error::Code(crate::ErrorCode::OnlyEventAuthorityCanCreateCollaborators),
        ),
        d.event.authority@ != d.authority@ && pda_matches(
            crate::pda::event_seeds_by_base(d.event_base@),
            program,
            d.event_key@,
            d.event.bump,
        ) ==> crate::disco::delete_collaborator_check(d, program) == Err::<(), crate::Error>(
            crate::Error::Code(crate::ErrorCode::OnlyEventAuthorityCanDeleteCollaborators),
        ),
{
}

// ------------------------------------------------------------------------
// Address substitution is rejected before any mutation
// ------------------------------------------------------------------------

/// Law: a record reference passes verification only with the canonical
/// derived address and its canonical disambiguation byte; a structurally
/// valid but semantically wrong bump, or a wrong address, never verifies.
pub proof fn lemma_wrong_disambiguation_rejected(
    seeds: Seq<Seq<u8>>,
    program: Seq<u8>,
    addr: Seq<u8>,
    bump: u8,
    other_addr: Seq<u8>,
    other_bump: u8,
)
    requires
        pda_matches(seeds, program, addr, bump),
    ensures
        other_bump != bump ==> !pda_matches(seeds, program, addr, other_bump),
        other_addr != addr ==> !pda_matches(seeds, program, other_addr, bump),
{
}

/// Law: an authority transfer whose ticket record carries a wrong
/// disambiguation byte fails with the address-integrity error, whatever
/// else the call supplies — and by `handle`'s contract the failing call
/// leaves the ticket unchanged.
pub proof fn lemma_transfer_rejects_wrong_bump(
    a: SetTicketAuthority,
    vault_bump: u8,
    program: Seq<u8>,
)
    requires
        pda_result(ticket_seeds(a.ticket_mint@), program) matches Some(p) && p.1 != a.ticket.bump,
    ensures
        set_ticket_authority_check(a, vault_bump, program) == Err::<(), Error>(
            Error::ConstraintSeeds,
        ),
{
}

} // verus!

