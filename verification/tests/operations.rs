//! Scenario tests of the per-ticket generation: selling, checking in and
//! transferring tickets, with addresses derived exactly as the host would.

use disco::collections::{Event, Ticket, TicketMachine};
use disco::errors::{Error, ErrorCode};
use disco::instructions::events::check_in;
use disco::instructions::events::create_event;
use disco::instructions::tickets::create_ticket_machine;
use disco::instructions::tickets::mint_ticket;
use disco::instructions::tickets::set_ticket_authority;
use disco::instructions::tickets::verify_ticket_ownership;
use disco::pda::Addr;
use disco::services::UseMethod;
use solana_program::pubkey::Pubkey;

fn addr(n: u8) -> Addr {
    Addr { bytes: [n; 32] }
}

fn pda(seeds: &[&[u8]], program: &Addr) -> (Addr, u8) {
    let p = Pubkey::new_from_array(program.bytes);
    let (k, b) = Pubkey::find_program_address(seeds, &p);
    (Addr { bytes: k.to_bytes() }, b)
}

struct World {
    program: Addr,
    metadata_program: Addr,
    token_program: Addr,
    ata_program: Addr,
    event_base: Addr,
    event_id: Vec<u8>,
    event_key: Addr,
    event: Event,
    event_mint: Addr,
    event_metadata: Addr,
    event_master_edition: Addr,
    event_vault: Addr,
    machine_base: Addr,
    machine_key: Addr,
    machine: TicketMachine,
}

/// A world whose event and machine records carry exactly the bumps the
/// host would have stored at creation, consistent with `mint_ticket`'s
/// derivations.
fn world(price: u64, quantity: u64, uses: u64) -> World {
    let program = addr(1);
    let metadata_program = addr(2);
    let token_program = addr(3);
    let ata_program = addr(4);
    let accepted_mint = addr(5);
    let authority = addr(6);
    let event_base = addr(7);
    let event_id = b"carnival".to_vec();
    let (event_key, event_bump) =
        pda(&[b"event", &event_base.bytes, &event_id], &program);
    let (event_vault, event_vault_bump) =
        pda(&[b"event_vault", &event_key.bytes], &program);
    let (event_mint, event_mint_bump) = pda(&[b"event_mint", &event_key.bytes], &program);
    let (event_metadata, event_metadata_bump) = pda(
        &[b"metadata", &metadata_program.bytes, &event_mint.bytes],
        &metadata_program,
    );
    let (event_master_edition, event_master_edition_bump) = pda(
        &[b"metadata", &metadata_program.bytes, &event_mint.bytes, b"edition"],
        &metadata_program,
    );
    let event = Event {
        accepted_mint,
        authority,
        bump: event_bump,
        event_vault_bump,
        event_mint_bump,
        event_metadata_bump,
        event_master_edition_bump,
    };
    let machine_base = addr(8);
    let (machine_key, machine_bump) = pda(
        &[b"ticket_machine", &event_key.bytes, &machine_base.bytes],
        &program,
    );
    let machine = TicketMachine {
        name: String::from("General"),
        symbol: String::from("GA"),
        uri: String::from("https://example.org/ga.json"),
        price,
        quantity,
        sold: 0,
        used: 0,
        uses,
        bump: machine_bump,
    };
    World {
        program,
        metadata_program,
        token_program,
        ata_program,
        event_base,
        event_id,
        event_key,
        event,
        event_mint,
        event_metadata,
        event_master_edition,
        event_vault,
        machine_base,
        machine_key,
        machine,
    }
}

/// A self-consistent `MintTicket` accounts bundle for a given buyer and
/// mint disambiguator.
fn mint_accounts(w: &World, buyer: Addr, mint_base: Addr) -> mint_ticket::MintTicket {
    let (ticket_mint, _) = pda(
        &[b"ticket_mint", &w.event_key.bytes, &w.machine_key.bytes, &mint_base.bytes],
        &w.program,
    );
    let (ticket_metadata, _) = pda(
        &[b"metadata", &w.metadata_program.bytes, &ticket_mint.bytes],
        &w.metadata_program,
    );
    let (ticket_master_edition, _) = pda(
        &[b"metadata", &w.metadata_program.bytes, &ticket_mint.bytes, b"edition"],
        &w.metadata_program,
    );
    let (ticket_vault, _) = pda(
        &[&buyer.bytes, &w.token_program.bytes, &ticket_mint.bytes],
        &w.ata_program,
    );
    let (ticket_key, _) = pda(&[b"ticket", &ticket_mint.bytes], &w.program);
    mint_ticket::MintTicket {
        metadata_program: w.metadata_program,
        token_program: w.token_program,
        associated_token_program: w.ata_program,
        authority: buyer,
        event_base: w.event_base,
        event: w.event.clone(),
        event_key: w.event_key,
        event_mint: w.event_mint,
        event_metadata: w.event_metadata,
        event_master_edition: w.event_master_edition,
        ticket_machine_base: w.machine_base,
        ticket_machine: w.machine.clone(),
        ticket_machine_key: w.machine_key,
        buyer_vault: addr(40),
        buyer_vault_mint: w.event.accepted_mint,
        event_vault: w.event_vault,
        ticket_mint_base: mint_base,
        ticket_mint,
        ticket_mint_occupied: false,
        ticket_metadata,
        ticket_master_edition,
        ticket_vault,
        ticket_vault_occupied: false,
        ticket_key,
        ticket_occupied: false,
    }
}

#[test]
fn sell_five_then_capacity_error() {
    let mut w = world(10, 5, 1);
    for i in 0..5u8 {
        let mut a = mint_accounts(&w, addr(100 + i), addr(50 + i));
        let out = mint_ticket::handle(&mut a, 0, &w.event_id.clone(), &w.program)
            .expect("sale within quantity succeeds");
        assert_eq!(a.ticket_machine.sold, (i as u64) + 1);
        assert!(!out.ticket.checked_in);
        assert!(out.ticket.authority == addr(100 + i));
        w.machine = a.ticket_machine;
    }
    assert_eq!(w.machine.sold, 5);
    let mut sixth = mint_accounts(&w, addr(110), addr(60));
    let r = mint_ticket::handle(&mut sixth, 0, &w.event_id.clone(), &w.program);
    assert_eq!(r.unwrap_err(), Error::Code(ErrorCode::NotEnoughTicketsAvailable));
    assert_eq!(sixth.ticket_machine.sold, 5);
}

#[test]
fn scenario_two_seats_one_redeemed() {
    // machine(price=100, quantity=2, useAllowance=1)
    let mut w = world(100, 2, 1);
    let buyer_a = addr(101);
    let buyer_b = addr(102);

    // buyer A buys ticket #1: sold becomes 1 and A pays exactly 100 units.
    let mut a1 = mint_accounts(&w, buyer_a, addr(51));
    let out1 = mint_ticket::handle(&mut a1, 0, &w.event_id.clone(), &w.program).unwrap();
    assert_eq!(a1.ticket_machine.sold, 1);
    assert_eq!(out1.transfer.amount, 100);
    assert!(out1.transfer.from == a1.buyer_vault);
    assert!(out1.transfer.to == w.event_vault);
    assert_eq!(out1.mint_to.amount, 1);
    assert_eq!(out1.create_metadata.uses.unwrap().use_method, UseMethod::Single);
    assert_eq!(out1.create_metadata.uses.unwrap().remaining, 1);
    w.machine = a1.ticket_machine.clone();
    let ticket1 = out1.ticket;

    // check in ticket #1: used becomes 1 and the flag is set for good.
    let machine_id = b"machine-1".to_vec();
    let (event_key2, event_bump2) = pda(&[b"event", &w.event_id], &w.program);
    let (machine_key2, machine_bump2) =
        pda(&[b"ticket_machine", &event_key2.bytes, &machine_id], &w.program);
    let mint_id = b"unit-1".to_vec();
    let (mint2, mint_bump2) = pda(
        &[b"ticket_mint", &event_key2.bytes, &machine_key2.bytes, &mint_id],
        &w.program,
    );
    let (md2, md_bump2) = pda(
        &[b"metadata", &w.metadata_program.bytes, &mint2.bytes],
        &w.metadata_program,
    );
    let (vault2, vault_bump2) = pda(
        &[&buyer_a.bytes, &w.token_program.bytes, &mint2.bytes],
        &w.ata_program,
    );
    let (ticket_key2, ticket_bump2) = pda(&[b"ticket", &mint2.bytes], &w.program);
    let mut event2 = w.event.clone();
    event2.bump = event_bump2;
    let mut machine2 = w.machine.clone();
    machine2.bump = machine_bump2;
    let ticket2 = Ticket {
        authority: ticket1.authority,
        checked_in: ticket1.checked_in,
        bump: ticket_bump2,
        associated_token_bump: vault_bump2,
        mint_bump: mint_bump2,
        metadata_bump: md_bump2,
        master_edition_bump: ticket1.master_edition_bump,
    };
    let mut c = check_in::CheckIn {
        metadata_program: w.metadata_program,
        token_program: w.token_program,
        associated_token_program: w.ata_program,
        authority: buyer_a,
        event: event2.clone(),
        event_key: event_key2,
        ticket_machine: machine2.clone(),
        ticket_machine_key: machine_key2,
        ticket_mint: mint2,
        ticket_metadata: md2,
        ticket_vault: vault2,
        ticket: ticket2,
        ticket_key: ticket_key2,
    };
    let utilize = check_in::handle(&mut c, &w.event_id.clone(), &machine_id, &mint_id, &w.program)
        .expect("first check-in succeeds");
    assert_eq!(c.ticket_machine.used, 1);
    assert!(c.ticket.checked_in);
    assert_eq!(utilize.number_of_uses, 1);
    assert!(utilize.owner == buyer_a);

    // a second check-in of the same ticket fails with the redemption error.
    let mut again = check_in::CheckIn { ticket_machine: c.ticket_machine.clone(), ..c };
    let r = check_in::handle(&mut again, &w.event_id.clone(), &machine_id, &mint_id, &w.program);
    assert_eq!(r.unwrap_err(), Error::Code(ErrorCode::TicketAlreadyCheckedIn));
    assert!(again.ticket.checked_in);
    assert_eq!(again.ticket_machine.used, 1);

    // a transfer of the checked-in ticket fails irreversibly.
    let checked_in_ticket = again.ticket;
    let (t_ticket_key, t_ticket_bump) = pda(&[b"ticket", &mint2.bytes], &w.program);
    let new_owner = addr(120);
    let (new_vault, new_vault_bump) = pda(
        &[&new_owner.bytes, &w.token_program.bytes, &mint2.bytes],
        &w.ata_program,
    );
    let mut s = set_ticket_authority::SetTicketAuthority {
        token_program: w.token_program,
        associated_token_program: w.ata_program,
        authority: buyer_a,
        new_authority: new_owner,
        ticket_mint: mint2,
        ticket: Ticket { bump: t_ticket_bump, ..checked_in_ticket },
        ticket_key: t_ticket_key,
        new_authority_ticket_vault: new_vault,
    };
    let r = set_ticket_authority::handle(&mut s, new_vault_bump, &w.program);
    assert_eq!(r.unwrap_err(), Error::Code(ErrorCode::CheckedInTicketsCantChangeAuthority));
    assert!(s.ticket.authority == buyer_a);

    // buyer B buys ticket #2, then a third sale fails for capacity.  The
    // counter carries the check-in, under the sale path's own bump again.
    let mint_path_bump = w.machine.bump;
    w.machine = c.ticket_machine.clone();
    w.machine.bump = mint_path_bump;
    let mut b2 = mint_accounts(&w, buyer_b, addr(52));
    mint_ticket::handle(&mut b2, 0, &w.event_id.clone(), &w.program).unwrap();
    assert_eq!(b2.ticket_machine.sold, 2);
    w.machine = b2.ticket_machine;
    let mut third = mint_accounts(&w, addr(103), addr(53));
    let r = mint_ticket::handle(&mut third, 0, &w.event_id.clone(), &w.program);
    assert_eq!(r.unwrap_err(), Error::Code(ErrorCode::NotEnoughTicketsAvailable));
    assert_eq!(third.ticket_machine.sold, 2);
}

#[test]
fn stranger_cannot_transfer_ticket() {
    let w = world(10, 3, 2);
    let owner = addr(101);
    let stranger = addr(102);
    let mint = addr(60);
    let (ticket_key, ticket_bump) = pda(&[b"ticket", &mint.bytes], &w.program);
    let new_owner = addr(103);
    let (new_vault, new_vault_bump) = pda(
        &[&new_owner.bytes, &w.token_program.bytes, &mint.bytes],
        &w.ata_program,
    );
    let ticket = Ticket {
        authority: owner,
        checked_in: false,
        bump: ticket_bump,
        associated_token_bump: 0,
        mint_bump: 0,
        metadata_bump: 0,
        master_edition_bump: 0,
    };
    let mut s = set_ticket_authority::SetTicketAuthority {
        token_program: w.token_program,
        associated_token_program: w.ata_program,
        authority: stranger,
        new_authority: new_owner,
        ticket_mint: mint,
        ticket,
        ticket_key,
        new_authority_ticket_vault: new_vault,
    };
    let r = set_ticket_authority::handle(&mut s, new_vault_bump, &w.program);
    assert_eq!(r.unwrap_err(), Error::Code(ErrorCode::OnlyTicketAuthorityCanChangeAuthority));
    assert!(s.ticket.authority == owner);

    // the owner itself succeeds
    let mut s2 = set_ticket_authority::SetTicketAuthority { authority: owner, ticket, ..s };
    set_ticket_authority::handle(&mut s2, new_vault_bump, &w.program).unwrap();
    assert!(s2.ticket.authority == new_owner);
    assert_eq!(s2.ticket.associated_token_bump, new_vault_bump);
}

#[test]
fn wrong_bump_fails_before_any_mutation() {
    let w = world(10, 5, 1);
    let mut a = mint_accounts(&w, addr(100), addr(50));
    // a structurally valid but semantically wrong disambiguation byte
    a.event.bump = a.event.bump.wrapping_add(1);
    let r = mint_ticket::handle(&mut a, 0, &w.event_id.clone(), &w.program);
    assert_eq!(r.unwrap_err(), Error::ConstraintSeeds);
    assert_eq!(a.ticket_machine.sold, 0);

    // a wrong record address fails the same way
    let mut b = mint_accounts(&w, addr(100), addr(50));
    b.ticket_machine_key = addr(99);
    let r = mint_ticket::handle(&mut b, 0, &w.event_id.clone(), &w.program);
    assert_eq!(r.unwrap_err(), Error::ConstraintSeeds);
    assert_eq!(b.ticket_machine.sold, 0);

    // untouched, the same call goes through
    let mut c = mint_accounts(&w, addr(100), addr(50));
    mint_ticket::handle(&mut c, 0, &w.event_id.clone(), &w.program).unwrap();
    assert_eq!(c.ticket_machine.sold, 1);
}

#[test]
fn wrong_payment_unit_is_rejected() {
    let w = world(10, 5, 1);
    let mut a = mint_accounts(&w, addr(100), addr(50));
    a.buyer_vault_mint = addr(90);
    let r = mint_ticket::handle(&mut a, 0, &w.event_id.clone(), &w.program);
    assert_eq!(r.unwrap_err(), Error::ConstraintRaw);
    assert_eq!(a.ticket_machine.sold, 0);
}

#[test]
fn occupied_ticket_record_is_rejected() {
    let w = world(10, 5, 1);
    let mut a = mint_accounts(&w, addr(100), addr(50));
    a.ticket_occupied = true;
    let r = mint_ticket::handle(&mut a, 0, &w.event_id.clone(), &w.program);
    assert_eq!(r.unwrap_err(), Error::AccountAlreadyInUse);
    assert_eq!(a.ticket_machine.sold, 0);
}

#[test]
fn multi_use_allowance_is_multiple() {
    let w = world(10, 5, 3);
    let mut a = mint_accounts(&w, addr(100), addr(50));
    let out = mint_ticket::handle(&mut a, 0, &w.event_id.clone(), &w.program).unwrap();
    let uses = out.create_metadata.uses.unwrap();
    assert_eq!(uses.use_method, UseMethod::Multiple);
    assert_eq!(uses.remaining, 3);
    assert_eq!(uses.total, 3);
    assert_eq!(out.create_metadata.name, "General");
    assert_eq!(out.create_metadata.symbol, "GA");
}

#[test]
fn create_machine_records_inputs_and_bump() {
    let program = addr(1);
    let authority = addr(6);
    let event_id = b"carnival".to_vec();
    let ticket_id = b"vip".to_vec();
    let (event_key, event_bump) = pda(&[b"event", &event_id], &program);
    let (machine_key, machine_bump) =
        pda(&[b"ticket_machine", &event_key.bytes, &ticket_id], &program);
    let event = Event {
        accepted_mint: addr(5),
        authority,
        bump: event_bump,
        event_vault_bump: 0,
        event_mint_bump: 0,
        event_metadata_bump: 0,
        event_master_edition_bump: 0,
    };
    let a = create_ticket_machine::CreateTicketMachine {
        authority,
        event,
        event_key,
        ticket_machine_key: machine_key,
        ticket_machine_occupied: false,
    };
    let m = create_ticket_machine::handle(
        &a,
        String::from("VIP"),
        String::from("V"),
        String::from("https://example.org/vip.json"),
        250,
        10,
        1,
        &event_id,
        &ticket_id,
        &program,
    )
    .unwrap();
    assert_eq!(m.price, 250);
    assert_eq!(m.quantity, 10);
    assert_eq!(m.sold, 0);
    assert_eq!(m.used, 0);
    assert_eq!(m.uses, 1);
    assert_eq!(m.bump, machine_bump);
    assert_eq!(m.name, "VIP");

    // creating it again at an occupied address fails
    let b = create_ticket_machine::CreateTicketMachine { ticket_machine_occupied: true, ..a };
    let r = create_ticket_machine::handle(
        &b,
        String::from("VIP"),
        String::from("V"),
        String::from("https://example.org/vip.json"),
        250,
        10,
        1,
        &event_id,
        &ticket_id,
        &program,
    );
    assert_eq!(r.unwrap_err(), Error::AccountAlreadyInUse);
}

#[test]
fn machine_creation_is_open_to_any_signer() {
    // this generation records no authority check on machine creation: a
    // signer other than the event's authority succeeds
    let program = addr(1);
    let stranger = addr(66);
    let event_id = b"carnival".to_vec();
    let ticket_id = b"open".to_vec();
    let (event_key, event_bump) = pda(&[b"event", &event_id], &program);
    let (machine_key, _) = pda(&[b"ticket_machine", &event_key.bytes, &ticket_id], &program);
    let event = Event {
        accepted_mint: addr(5),
        authority: addr(6),
        bump: event_bump,
        event_vault_bump: 0,
        event_mint_bump: 0,
        event_metadata_bump: 0,
        event_master_edition_bump: 0,
    };
    let a = create_ticket_machine::CreateTicketMachine {
        authority: stranger,
        event,
        event_key,
        ticket_machine_key: machine_key,
        ticket_machine_occupied: false,
    };
    let m = create_ticket_machine::handle(
        &a,
        String::from("Open"),
        String::from("O"),
        String::from("uri"),
        1,
        1,
        1,
        &event_id,
        &ticket_id,
        &program,
    )
    .unwrap();
    assert_eq!(m.sold, 0);
}

#[test]
fn oversized_disambiguator_finds_no_bump() {
    let program = addr(1);
    let authority = addr(6);
    // a disambiguator beyond the host's seed-length limit: no derivation exists
    let event_id = vec![7u8; 64];
    let ticket_id = b"vip".to_vec();
    let event = Event {
        accepted_mint: addr(5),
        authority,
        bump: 255,
        event_vault_bump: 0,
        event_mint_bump: 0,
        event_metadata_bump: 0,
        event_master_edition_bump: 0,
    };
    let a = create_ticket_machine::CreateTicketMachine {
        authority,
        event,
        event_key: addr(9),
        ticket_machine_key: addr(10),
        ticket_machine_occupied: false,
    };
    let r = create_ticket_machine::handle(
        &a,
        String::from("VIP"),
        String::from("V"),
        String::from("uri"),
        1,
        1,
        1,
        &event_id,
        &ticket_id,
        &program,
    );
    // the event reference itself cannot re-derive
    assert_eq!(r.unwrap_err(), Error::ConstraintSeeds);

    // with a sound event reference but an oversized machine disambiguator,
    // the machine's own derivation finds no bump at all
    let event_id = b"carnival".to_vec();
    let oversized_ticket_id = vec![7u8; 64];
    let (event_key, event_bump) = pda(&[b"event", &event_id], &program);
    let event = Event {
        accepted_mint: addr(5),
        authority,
        bump: event_bump,
        event_vault_bump: 0,
        event_mint_bump: 0,
        event_metadata_bump: 0,
        event_master_edition_bump: 0,
    };
    let b = create_ticket_machine::CreateTicketMachine {
        authority,
        event,
        event_key,
        ticket_machine_key: addr(10),
        ticket_machine_occupied: false,
    };
    let r = create_ticket_machine::handle(
        &b,
        String::from("VIP"),
        String::from("V"),
        String::from("uri"),
        1,
        1,
        1,
        &event_id,
        &oversized_ticket_id,
        &program,
    );
    assert_eq!(r.unwrap_err(), Error::BumpNotFound);
}

#[test]
fn create_event_records_authority_and_bumps() {
    let program = addr(1);
    let metadata_program = addr(2);
    let authority = addr(6);
    let event_base = addr(7);
    let event_id = b"carnival".to_vec();
    let (event_key, event_bump) = pda(&[b"event", &event_base.bytes, &event_id], &program);
    let (event_vault, vault_bump) = pda(&[b"event_vault", &event_key.bytes], &program);
    let (event_mint, mint_bump) = pda(&[b"event_mint", &event_key.bytes], &program);
    let (event_metadata, md_bump) = pda(
        &[b"metadata", &metadata_program.bytes, &event_mint.bytes],
        &metadata_program,
    );
    let (event_master_edition, me_bump) = pda(
        &[b"metadata", &metadata_program.bytes, &event_mint.bytes, b"edition"],
        &metadata_program,
    );
    let (collection_vault, _) = pda(&[b"event_collection_vault", &event_key.bytes], &program);
    let a = create_event::CreateEvent {
        metadata_program,
        authority,
        event_base,
        event_key,
        event_occupied: false,
        accepted_mint: addr(5),
        event_vault,
        event_vault_occupied: false,
        event_mint,
        event_mint_occupied: false,
        event_metadata,
        event_master_edition,
        event_collection_vault: collection_vault,
        event_collection_vault_occupied: false,
    };
    let out = create_event::handle(
        &a,
        String::from("Carnival"),
        String::from("CV"),
        String::from("https://example.org/cv.json"),
        &event_id,
        &program,
    )
    .unwrap();
    assert!(out.event.authority == authority);
    assert!(out.event.accepted_mint == addr(5));
    assert_eq!(out.event.bump, event_bump);
    assert_eq!(out.event.event_vault_bump, vault_bump);
    assert_eq!(out.event.event_mint_bump, mint_bump);
    assert_eq!(out.event.event_metadata_bump, md_bump);
    assert_eq!(out.event.event_master_edition_bump, me_bump);
    assert_eq!(out.mint_to.amount, 1);
    assert!(out.mint_to.to == collection_vault);
    assert!(out.create_metadata.uses.is_none());
    assert_eq!(out.create_metadata.name, "Carnival");

    // replaying the creation at the occupied address fails
    let b = create_event::CreateEvent { event_occupied: true, ..a };
    let r = create_event::handle(
        &b,
        String::from("Carnival"),
        String::from("CV"),
        String::from("https://example.org/cv.json"),
        &event_id,
        &program,
    );
    assert_eq!(r.unwrap_err(), Error::AccountAlreadyInUse);
}

#[test]
fn ownership_verification_demands_authority_and_balance() {
    let program = addr(1);
    let token_program = addr(3);
    let ata_program = addr(4);
    let owner = addr(101);
    let event_id = b"carnival".to_vec();
    let machine_id = b"machine-1".to_vec();
    let mint_id = b"unit-1".to_vec();
    let (event_key, event_bump) = pda(&[b"event", &event_id], &program);
    let (machine_key, machine_bump) =
        pda(&[b"ticket_machine", &event_key.bytes, &machine_id], &program);
    let (mint, mint_bump) = pda(
        &[b"ticket_mint", &event_key.bytes, &machine_key.bytes, &mint_id],
        &program,
    );
    let (ticket_key, ticket_bump) = pda(&[b"ticket", &mint.bytes], &program);
    let (vault, vault_bump) = pda(
        &[&owner.bytes, &token_program.bytes, &mint.bytes],
        &ata_program,
    );
    let event = Event {
        accepted_mint: addr(5),
        authority: addr(6),
        bump: event_bump,
        event_vault_bump: 0,
        event_mint_bump: 0,
        event_metadata_bump: 0,
        event_master_edition_bump: 0,
    };
    let machine = TicketMachine {
        name: String::from("General"),
        symbol: String::from("GA"),
        uri: String::from("uri"),
        price: 10,
        quantity: 5,
        sold: 1,
        used: 0,
        uses: 1,
        bump: machine_bump,
    };
    let ticket = Ticket {
        authority: owner,
        checked_in: false,
        bump: ticket_bump,
        associated_token_bump: vault_bump,
        mint_bump,
        metadata_bump: 0,
        master_edition_bump: 0,
    };
    let a = verify_ticket_ownership::VerifyTicketOwnership {
        token_program,
        associated_token_program: ata_program,
        authority: owner,
        event: event.clone(),
        event_key,
        ticket_machine: machine.clone(),
        ticket_machine_key: machine_key,
        ticket_mint: mint,
        ticket,
        ticket_key,
        ticket_vault: vault,
        ticket_vault_amount: 1,
    };
    verify_ticket_ownership::handle(&a, &event_id, &machine_id, &mint_id, &program).unwrap();

    // a stranger claiming the ticket is rejected
    let stranger = addr(102);
    let (stranger_vault, stranger_vault_bump) = pda(
        &[&stranger.bytes, &token_program.bytes, &mint.bytes],
        &ata_program,
    );
    let b = verify_ticket_ownership::VerifyTicketOwnership {
        authority: stranger,
        ticket_vault: stranger_vault,
        ticket: Ticket { associated_token_bump: stranger_vault_bump, ..ticket },
        event: event.clone(),
        ticket_machine: machine.clone(),
        ..a
    };
    let r = verify_ticket_ownership::handle(&b, &event_id, &machine_id, &mint_id, &program);
    assert_eq!(r.unwrap_err(), Error::Code(ErrorCode::InvalidAuthorityForTicket));

    // an empty holding record is rejected the same way
    let c = verify_ticket_ownership::VerifyTicketOwnership {
        ticket_vault_amount: 0,
        event,
        ticket_machine: machine,
        ..a
    };
    let r = verify_ticket_ownership::handle(&c, &event_id, &machine_id, &mint_id, &program);
    assert_eq!(r.unwrap_err(), Error::Code(ErrorCode::InvalidAuthorityForTicket));
}
