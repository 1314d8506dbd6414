//! Scenario tests of the batch generation: counters sold and redeemed in
//! batches, collaborator permissions and attendance proof.

use disco::disco::{
    buy_tickets, check_in, check_in_with_attendance, create_collaborator, create_event,
    create_event_ticket, create_proof_of_attendance, delete_collaborator,
};
use disco::pda::Addr;
use disco::{
    BuyTickets, CheckIn, CheckInWithAttendance, CreateCollaborator, CreateEvent,
    CreateEventTicket, CreateProofOfAttendance, DeleteCollaborator, Error, ErrorCode, Event,
    EventTicket,
};
use solana_program::pubkey::Pubkey;

fn addr(n: u8) -> Addr {
    Addr { bytes: [n; 32] }
}

fn pda(seeds: &[&[u8]], program: &Addr) -> (Addr, u8) {
    let p = Pubkey::new_from_array(program.bytes);
    let (k, b) = Pubkey::find_program_address(seeds, &p);
    (Addr { bytes: k.to_bytes() }, b)
}

struct World {
    program: Addr,
    metadata_program: Addr,
    authority: Addr,
    event_base: Addr,
    event_key: Addr,
    event: Event,
    event_vault: Addr,
    event_ticket_base: Addr,
    event_ticket_key: Addr,
    event_ticket: EventTicket,
    ticket_mint: Addr,
    ticket_metadata: Addr,
}

fn world(price: u32, quantity: u32) -> World {
    let program = addr(1);
    let metadata_program = addr(2);
    let authority = addr(6);
    let event_base = addr(7);
    let (event_key, event_bump) = pda(&[b"event", &event_base.bytes], &program);
    let (event_vault, event_vault_bump) = pda(&[b"event_vault", &event_key.bytes], &program);
    let event = Event {
        event_title: String::from("Carnival"),
        accepted_mint: addr(5),
        authority,
        bump: event_bump,
        event_vault_bump,
    };
    let event_ticket_base = addr(8);
    let (event_ticket_key, et_bump) = pda(
        &[b"event_ticket", &event_key.bytes, &event_ticket_base.bytes],
        &program,
    );
    let (ticket_mint, tm_bump) = pda(
        &[b"ticket_mint", &event_key.bytes, &event_ticket_key.bytes],
        &program,
    );
    let (ticket_metadata, md_bump) = pda(
        &[b"metadata", &metadata_program.bytes, &ticket_mint.bytes],
        &metadata_program,
    );
    let event_ticket = EventTicket {
        price,
        quantity,
        sold: 0,
        used: 0,
        has_poap: false,
        bump: et_bump,
        ticket_mint_bump: tm_bump,
        ticket_metadata_bump: md_bump,
        attendance_mint_bump: 0,
        attendance_metadata_bump: 0,
    };
    World {
        program,
        metadata_program,
        authority,
        event_base,
        event_key,
        event,
        event_vault,
        event_ticket_base,
        event_ticket_key,
        event_ticket,
        ticket_mint,
        ticket_metadata,
    }
}

fn buy_accounts(w: &World, buyer: Addr) -> BuyTickets {
    BuyTickets {
        authority: buyer,
        event_base: w.event_base,
        event: w.event.clone(),
        event_key: w.event_key,
        event_ticket_base: w.event_ticket_base,
        event_ticket: w.event_ticket,
        event_ticket_key: w.event_ticket_key,
        buyer_vault: addr(40),
        buyer_vault_mint: w.event.accepted_mint,
        event_vault: w.event_vault,
        ticket_mint: w.ticket_mint,
        ticket_vault: addr(41),
        ticket_vault_mint: w.ticket_mint,
    }
}

fn check_in_accounts(w: &World, collaborator_base: Addr, attendee: Addr) -> CheckIn {
    let (collaborator_key, collaborator_bump) = pda(
        &[b"collaborator", &w.event_key.bytes, &collaborator_base.bytes],
        &w.program,
    );
    CheckIn {
        collaborator_base,
        attendee,
        event_base: w.event_base,
        event: w.event.clone(),
        event_key: w.event_key,
        collaborator: disco::Collaborator { bump: collaborator_bump },
        collaborator_key,
        event_ticket_base: w.event_ticket_base,
        event_ticket: w.event_ticket,
        event_ticket_key: w.event_ticket_key,
        ticket_mint: w.ticket_mint,
        ticket_vault: addr(41),
        ticket_vault_mint: w.ticket_mint,
    }
}

#[test]
fn create_event_and_ticket_counter() {
    let w = world(100, 2);
    let a = CreateEvent {
        authority: w.authority,
        event_base: w.event_base,
        event_key: w.event_key,
        event_occupied: false,
        accepted_mint: addr(5),
        event_vault: w.event_vault,
        event_vault_occupied: false,
    };
    let ev = create_event(&a, String::from("Carnival"), &w.program).unwrap();
    assert_eq!(ev.event_title, "Carnival");
    assert!(ev.authority == w.authority);
    assert_eq!(ev.bump, w.event.bump);
    assert_eq!(ev.event_vault_bump, w.event.event_vault_bump);

    // replaying the creation fails
    let again = CreateEvent { event_occupied: true, ..a };
    let r = create_event(&again, String::from("Carnival"), &w.program);
    assert_eq!(r.unwrap_err(), Error::AccountAlreadyInUse);

    let c = CreateEventTicket {
        metadata_program: w.metadata_program,
        authority: w.authority,
        event_base: w.event_base,
        event: ev,
        event_key: w.event_key,
        event_ticket_base: w.event_ticket_base,
        event_ticket_key: w.event_ticket_key,
        event_ticket_occupied: false,
        ticket_mint: w.ticket_mint,
        ticket_mint_occupied: false,
        ticket_metadata: w.ticket_metadata,
    };
    let out = create_event_ticket(
        &c,
        String::from("General"),
        String::from("GA"),
        String::from("https://example.org/ga.json"),
        100,
        2,
        &w.program,
    )
    .unwrap();
    assert_eq!(out.event_ticket, w.event_ticket);
    assert_eq!(out.create_metadata.name, "General");
    assert!(out.create_metadata.uses.is_none());
}

#[test]
fn batch_sales_stop_at_capacity() {
    let mut w = world(100, 5);
    // a batch of three: the buyer pays exactly 300 value units
    let mut a = buy_accounts(&w, addr(101));
    let out = buy_tickets(&mut a, 3, &w.program).unwrap();
    assert_eq!(a.event_ticket.sold, 3);
    assert_eq!(out.transfer.amount, 300);
    assert_eq!(out.mint_to.amount, 3);
    w.event_ticket = a.event_ticket;

    // a batch that no longer fits fails and moves nothing
    let mut b = buy_accounts(&w, addr(102));
    let r = buy_tickets(&mut b, 3, &w.program);
    assert_eq!(r.unwrap_err(), Error::Code(ErrorCode::NotEnoughTicketsAvailable));
    assert_eq!(b.event_ticket.sold, 3);

    // the remaining two can still be sold
    let mut c = buy_accounts(&w, addr(102));
    buy_tickets(&mut c, 2, &w.program).unwrap();
    assert_eq!(c.event_ticket.sold, 5);
    w.event_ticket = c.event_ticket;

    // and nothing at all can be sold at capacity
    let mut d = buy_accounts(&w, addr(103));
    let r = buy_tickets(&mut d, 1, &w.program);
    assert_eq!(r.unwrap_err(), Error::Code(ErrorCode::NotEnoughTicketsAvailable));
    assert_eq!(d.event_ticket.sold, 5);
}

#[test]
fn wrong_payment_unit_rejected_in_batch_sale() {
    let w = world(100, 5);
    let mut a = buy_accounts(&w, addr(101));
    a.buyer_vault_mint = addr(90);
    let r = buy_tickets(&mut a, 1, &w.program);
    assert_eq!(r.unwrap_err(), Error::ConstraintRaw);
    assert_eq!(a.event_ticket.sold, 0);
}

#[test]
fn batch_check_in_within_sold_units() {
    let mut w = world(100, 5);
    let mut a = buy_accounts(&w, addr(101));
    buy_tickets(&mut a, 3, &w.program).unwrap();
    w.event_ticket = a.event_ticket;

    // redeeming two of the three sold units burns exactly two
    let mut c = check_in_accounts(&w, addr(20), addr(101));
    let burn = check_in(&mut c, 2, &w.program).unwrap();
    assert_eq!(c.event_ticket.used, 2);
    assert_eq!(burn.amount, 2);
    assert!(burn.authority == addr(101));
    w.event_ticket = c.event_ticket;

    // redeeming two more exceeds the sold count and fails
    let mut d = check_in_accounts(&w, addr(20), addr(101));
    let r = check_in(&mut d, 2, &w.program);
    assert_eq!(r.unwrap_err(), Error::Code(ErrorCode::NotEnoughTicketsToCheckIn));
    assert_eq!(d.event_ticket.used, 2);
}

#[test]
fn plain_check_in_refuses_attendance_counters() {
    let mut w = world(100, 5);
    let mut a = buy_accounts(&w, addr(101));
    buy_tickets(&mut a, 2, &w.program).unwrap();
    w.event_ticket = a.event_ticket;
    w.event_ticket.has_poap = true;
    let mut c = check_in_accounts(&w, addr(20), addr(101));
    let r = check_in(&mut c, 1, &w.program);
    assert_eq!(
        r.unwrap_err(),
        Error::Code(ErrorCode::CheckInIsOnlyAvailableForTicketsWithoutAttendance)
    );
    assert_eq!(c.event_ticket.used, 0);
}

#[test]
fn attendance_check_in_burns_and_mints_alike() {
    let mut w = world(100, 5);
    let mut a = buy_accounts(&w, addr(101));
    buy_tickets(&mut a, 3, &w.program).unwrap();
    w.event_ticket = a.event_ticket;

    // attach the attendance proof first
    let (attendance_mint, am_bump) = pda(
        &[b"attendance_mint", &w.event_key.bytes, &w.event_ticket_key.bytes],
        &w.program,
    );
    let (attendance_metadata, amd_bump) = pda(
        &[b"metadata", &w.metadata_program.bytes, &attendance_mint.bytes],
        &w.metadata_program,
    );
    let mut p = CreateProofOfAttendance {
        metadata_program: w.metadata_program,
        authority: w.authority,
        event_base: w.event_base,
        event: w.event.clone(),
        event_key: w.event_key,
        event_ticket_base: w.event_ticket_base,
        event_ticket: w.event_ticket,
        event_ticket_key: w.event_ticket_key,
        attendance_mint,
        attendance_mint_occupied: false,
        attendance_metadata,
    };
    let md = create_proof_of_attendance(
        &mut p,
        String::from("Proof"),
        String::from("P"),
        String::from("https://example.org/p.json"),
        &w.program,
    )
    .unwrap();
    assert!(p.event_ticket.has_poap);
    assert_eq!(p.event_ticket.attendance_mint_bump, am_bump);
    assert_eq!(p.event_ticket.attendance_metadata_bump, amd_bump);
    assert_eq!(md.name, "Proof");
    w.event_ticket = p.event_ticket;

    let (collaborator_key, collaborator_bump) =
        pda(&[b"collaborator", &w.event_key.bytes, &addr(20).bytes], &w.program);
    let mut c = CheckInWithAttendance {
        collaborator_base: addr(20),
        attendee: addr(101),
        event_base: w.event_base,
        event: w.event.clone(),
        event_key: w.event_key,
        collaborator: disco::Collaborator { bump: collaborator_bump },
        collaborator_key,
        event_ticket_base: w.event_ticket_base,
        event_ticket: w.event_ticket,
        event_ticket_key: w.event_ticket_key,
        ticket_mint: w.ticket_mint,
        ticket_vault: addr(41),
        ticket_vault_mint: w.ticket_mint,
        attendance_mint,
        attendance_vault: addr(42),
        attendance_vault_mint: attendance_mint,
    };
    let out = check_in_with_attendance(&mut c, 2, &w.program).unwrap();
    assert_eq!(c.event_ticket.used, 2);
    assert_eq!(out.burn.amount, 2);
    assert_eq!(out.mint_to.amount, 2);
    assert!(out.mint_to.mint == attendance_mint);
    assert!(out.burn.authority == addr(101));
}

#[test]
fn batch_check_in_demands_a_valid_collaborator_reference() {
    // this generation gates redemption on the collaborator record derived
    // from the first signer: a forged collaborator reference fails before
    // any counter moves
    let mut w = world(100, 5);
    let mut a = buy_accounts(&w, addr(101));
    buy_tickets(&mut a, 2, &w.program).unwrap();
    w.event_ticket = a.event_ticket;
    let mut c = check_in_accounts(&w, addr(20), addr(101));
    c.collaborator_key = addr(99);
    let r = check_in(&mut c, 1, &w.program);
    assert_eq!(r.unwrap_err(), Error::ConstraintSeeds);
    assert_eq!(c.event_ticket.used, 0);
}

#[test]
fn collaborators_answer_to_event_authority() {
    let w = world(100, 5);
    let collaborator_base = addr(20);
    let (collaborator_key, collaborator_bump) = pda(
        &[b"collaborator", &w.event_key.bytes, &collaborator_base.bytes],
        &w.program,
    );

    // a stranger may not create a collaborator
    let stranger = addr(102);
    let a = CreateCollaborator {
        authority: stranger,
        event_base: w.event_base,
        event: w.event.clone(),
        event_key: w.event_key,
        collaborator_base,
        collaborator_key,
        collaborator_occupied: false,
    };
    let r = create_collaborator(&a, &w.program);
    assert_eq!(
        r.unwrap_err(),
        Error::Code(ErrorCode::OnlyEventAuthorityCanCreateCollaborators)
    );

    // the event's authority may
    let b = CreateCollaborator { authority: w.authority, event: w.event.clone(), ..a };
    let c = create_collaborator(&b, &w.program).unwrap();
    assert_eq!(c.bump, collaborator_bump);

    // a stranger may not delete it either
    let d = DeleteCollaborator {
        authority: stranger,
        event_base: w.event_base,
        event: w.event.clone(),
        event_key: w.event_key,
        collaborator_base,
        collaborator: c,
        collaborator_key,
    };
    let r = delete_collaborator(&d, &w.program);
    assert_eq!(
        r.unwrap_err(),
        Error::Code(ErrorCode::OnlyEventAuthorityCanDeleteCollaborators)
    );

    // the event's authority may
    let e = DeleteCollaborator { authority: w.authority, event: w.event.clone(), ..d };
    delete_collaborator(&e, &w.program).unwrap();
}
