//! Selling one ticket: the sale precondition, the payment transfer, the
//! minting of the ticket unit and the creation of its ticket record.

use vstd::prelude::*;
use crate::collections::{Event, Ticket, TicketMachine};
use crate::errors::{Error, ErrorCode};
use crate::pda::{
    associated_token_seeds, check_pda, clone_bytes, edition_tag_bytes, event_mint_seeds,
    event_mint_tag_bytes, event_seeds, event_tag_bytes, event_vault_seeds, event_vault_tag_bytes,
    find_pda, master_edition_seeds, metadata_seeds, metadata_tag_bytes, pda_matches, pda_result,
    seeds2, seeds3, seeds4, ticket_machine_seeds, ticket_machine_tag_bytes, ticket_mint_seeds3,
    ticket_mint_tag_bytes, ticket_seeds, ticket_tag_bytes, Addr,
};
use crate::services::{
    CreateMasterEdition, CreateMetadata, MintTo, SetAndVerifyCollection, Transfer, UseMethod, Uses,
};

verus! {

/// The records and identities referenced by one `MintTicket` call.
///
/// `authority` is the buyer: the identity whose signature the host runtime
/// has already verified.  The `*_occupied` flags report whether a record
/// already exists at the derived address of each record this operation
/// creates.
pub struct MintTicket {
    pub metadata_program: Addr,
    pub token_program: Addr,
    pub associated_token_program: Addr,
    pub authority: Addr,
    pub event_base: Addr,
    /// The event record, stored at `event_key`.
    pub event: Event,
    pub event_key: Addr,
    pub event_mint: Addr,
    pub event_metadata: Addr,
    pub event_master_edition: Addr,
    pub ticket_machine_base: Addr,
    /// The ticket machine record, stored at `ticket_machine_key`.
    pub ticket_machine: TicketMachine,
    pub ticket_machine_key: Addr,
    pub buyer_vault: Addr,
    /// The payment unit of the buyer's vault.
    pub buyer_vault_mint: Addr,
    pub event_vault: Addr,
    pub ticket_mint_base: Addr,
    pub ticket_mint: Addr,
    pub ticket_mint_occupied: bool,
    pub ticket_metadata: Addr,
    pub ticket_master_edition: Addr,
    pub ticket_vault: Addr,
    pub ticket_vault_occupied: bool,
    pub ticket_key: Addr,
    pub ticket_occupied: bool,
}

/// The record created and the external sub-calls the host must perform when
/// a sale passes its preconditions.
#[derive(Debug)]
pub struct MintTicketOutput {
    /// The new ticket record, to be stored at the ticket's derived address.
    pub ticket: Ticket,
    /// Payment: price in value units from the buyer's vault to the event's.
    pub transfer: Transfer,
    /// One ticket unit minted to the buyer, under the event's authority.
    pub mint_to: MintTo,
    /// Display metadata and the use allowance attached to the new unit.
    pub create_metadata: CreateMetadata,
    /// The master edition pinning the new unit's supply.
    pub create_master_edition: CreateMasterEdition,
    /// Membership of the new unit in the event's collection.
    pub set_and_verify_collection: SetAndVerifyCollection,
}

/// The outcome of resolving and checking the referenced records, in the
/// order the runtime checks them.  `Ok` carries the bumps chosen for the
/// ticket mint, the ticket metadata, the ticket master edition and the
/// ticket record.
pub open spec fn mint_ticket_check(
    a: MintTicket,
    event_id: Seq<u8>,
    program: Seq<u8>,
) -> Result<(u8, u8, u8, u8), Error> {
    if !pda_matches(event_seeds(a.event_base@, event_id), program, a.event_key@, a.event.bump) {
        Err(Error::ConstraintSeeds)
    } else if !pda_matches(
        event_mint_seeds(a.event_key@),
        program,
        a.event_mint@,
        a.event.event_mint_bump,
    ) {
        Err(Error::ConstraintSeeds)
    } else if !pda_matches(
        metadata_seeds(a.metadata_program@, a.event_mint@),
        a.metadata_program@,
        a.event_metadata@,
        a.event.event_metadata_bump,
    ) {
        Err(Error::ConstraintSeeds)
    } else if !pda_matches(
        master_edition_seeds(a.metadata_program@, a.event_mint@),
        a.metadata_program@,
        a.event_master_edition@,
        a.event.event_master_edition_bump,
    ) {
        Err(Error::ConstraintSeeds)
    } else if !pda_matches(
        ticket_machine_seeds(a.event_key@, a.ticket_machine_base@),
        program,
        a.ticket_machine_key@,
        a.ticket_machine.bump,
    ) {
        Err(Error::ConstraintSeeds)
    } else if a.ticket_machine.quantity < a.ticket_machine.sold + 1 {
        Err(Error::Code(ErrorCode::NotEnoughTicketsAvailable))
    } else if a.buyer_vault_mint@ != a.event.accepted_mint@ {
        Err(Error::ConstraintRaw)
    } else if !pda_matches(
        event_vault_seeds(a.event_key@),
        program,
        a.event_vault@,
        a.event.event_vault_bump,
    ) {
        Err(Error::ConstraintSeeds)
    } else {
        match pda_result(
            ticket_mint_seeds3(a.event_key@, a.ticket_machine_key@, a.ticket_mint_base@),
            program,
        ) {
            None => Err(Error::BumpNotFound),
            Some((mint_addr, mint_bump)) => if mint_addr != a.ticket_mint@ {
                Err(Error::ConstraintSeeds)
            } else if a.ticket_mint_occupied {
                Err(Error::AccountAlreadyInUse)
            } else {
                match pda_result(
                    metadata_seeds(a.metadata_program@, a.ticket_mint@),
                    a.metadata_program@,
                ) {
                    None => Err(Error::BumpNotFound),
                    Some((md_addr, md_bump)) => if md_addr != a.ticket_metadata@ {
                        Err(Error::ConstraintSeeds)
                    } else {
                        match pda_result(
                            master_edition_seeds(a.metadata_program@, a.ticket_mint@),
                            a.metadata_program@,
                        ) {
                            None => Err(Error::BumpNotFound),
                            Some((me_addr, me_bump)) => if me_addr != a.ticket_master_edition@ {
                                Err(Error::ConstraintSeeds)
                            } else {
                                match pda_result(
                                    associated_token_seeds(
                                        a.authority@,
                                        a.token_program@,
                                        a.ticket_mint@,
                                    ),
                                    a.associated_token_program@,
                                ) {
                                    None => Err(Error::BumpNotFound),
                                    Some((vault_addr, _vault_bump)) => if vault_addr
                                        != a.ticket_vault@ {
                                        Err(Error::ConstraintSeeds)
                                    } else if a.ticket_vault_occupied {
                                        Err(Error::AccountAlreadyInUse)
                                    } else {
                                        match pda_result(ticket_seeds(a.ticket_mint@), program) {
                                            None => Err(Error::BumpNotFound),
                                            Some((ticket_addr, ticket_bump)) => if ticket_addr
                                                != a.ticket_key@ {
                                                Err(Error::ConstraintSeeds)
                                            } else if a.ticket_occupied {
                                                Err(Error::AccountAlreadyInUse)
                                            } else {
                                                Ok((mint_bump, md_bump, me_bump, ticket_bump))
                                            },
                                        }
                                    },
                                }
                            },
                        }
                    },
                }
            },
        }
    }
}

/// Sells one ticket of a machine.
///
/// Succeeds exactly when every referenced record re-derives to its claimed
/// address, the machine still has `sold < quantity`, the buyer's vault holds
/// the event's accepted payment unit, and the mint, holding record and
/// ticket record to be created are vacant.  On success `sold` rises by one
/// and the output names the new ticket record (authority = buyer, not
/// checked in) and the external sub-calls: payment of exactly `price` from
/// the buyer's vault to the event's vault, one unit minted to the buyer,
/// metadata carrying the machine's display data and a use allowance of
/// `uses` (consumed singly when `uses == 1`), the master edition, and
/// collection membership.  On any failure nothing changes.
pub fn handle(
    a: &mut MintTicket,
    ticket_vault_bump: u8,
    event_id: &Vec<u8>,
    program_id: &Addr,
) -> (r: Result<MintTicketOutput, Error>)
    ensures
        match mint_ticket_check(*old(a), event_id@, program_id@) {
            Err(e) => r matches Err(e2) && e2 == e && *final(a) == *old(a),
            Ok(bumps) => r matches Ok(out)
                && *final(a) == (MintTicket {
                    ticket_machine: TicketMachine {
                        sold: (old(a).ticket_machine.sold + 1) as u64,
                        ..old(a).ticket_machine
                    },
                    ..*old(a)
                })
                && out.ticket == (Ticket {
                    authority: old(a).authority,
                    checked_in: false,
                    bump: bumps.3,
                    associated_token_bump: ticket_vault_bump,
                    mint_bump: bumps.0,
                    metadata_bump: bumps.1,
                    master_edition_bump: bumps.2,
                })
                && out.transfer == (Transfer {
                    from: old(a).buyer_vault,
                    to: old(a).event_vault,
                    authority: old(a).authority,
                    amount: old(a).ticket_machine.price,
                })
                && out.mint_to == (MintTo {
                    mint: old(a).ticket_mint,
                    to: old(a).ticket_vault,
                    authority: old(a).event_key,
                    amount: 1,
                })
                && out.create_metadata.metadata == old(a).ticket_metadata
                && out.create_metadata.mint == old(a).ticket_mint
                && out.create_metadata.mint_authority == old(a).event_key
                && out.create_metadata.payer == old(a).authority
                && out.create_metadata.update_authority == old(a).event_key
                && out.create_metadata.name@ == old(a).ticket_machine.name@
                && out.create_metadata.symbol@ == old(a).ticket_machine.symbol@
                && out.create_metadata.uri@ == old(a).ticket_machine.uri@
                && out.create_metadata.uses == Some(Uses {
                    remaining: old(a).ticket_machine.uses,
                    total: old(a).ticket_machine.uses,
                    use_method: if old(a).ticket_machine.uses == 1 {
                        UseMethod::Single
                    } else {
                        UseMethod::Multiple
                    },
                })
                && out.create_master_edition == (CreateMasterEdition {
                    edition: old(a).ticket_master_edition,
                    mint: old(a).ticket_mint,
                    update_authority: old(a).event_key,
                    mint_authority: old(a).event_key,
                    metadata: old(a).ticket_metadata,
                    payer: old(a).authority,
                    max_supply: Some(0u64),
                })
                && out.set_and_verify_collection == (SetAndVerifyCollection {
                    metadata: old(a).ticket_metadata,
                    collection_authority: old(a).event_key,
                    payer: old(a).authority,
                    update_authority: old(a).event_key,
                    collection_mint: old(a).event_mint,
                    collection_metadata: old(a).event_metadata,
                    collection_master_edition: old(a).event_master_edition,
                }),
        },
        old(a).ticket_machine.sold >= old(a).ticket_machine.quantity ==> r is Err
            && final(a).ticket_machine.sold == old(a).ticket_machine.sold,
        r is Err ==> *final(a) == *old(a),
        old(a).ticket_machine.wf() ==> final(a).ticket_machine.wf(),
        final(a).ticket_machine.quantity == old(a).ticket_machine.quantity,
        final(a).ticket_machine.price == old(a).ticket_machine.price,
{
    let event_seed_list = seeds3(
        event_tag_bytes(),
        a.event_base.to_seed(),
        clone_bytes(event_id),
    );
    if !check_pda(&event_seed_list, program_id, &a.event_key, a.event.bump) {
        return Err(Error::ConstraintSeeds);
    }
    let event_mint_seed_list = seeds2(event_mint_tag_bytes(), a.event_key.to_seed());
    if !check_pda(&event_mint_seed_list, program_id, &a.event_mint, a.event.event_mint_bump) {
        return Err(Error::ConstraintSeeds);
    }
    let event_md_seed_list = seeds3(
        metadata_tag_bytes(),
        a.metadata_program.to_seed(),
        a.event_mint.to_seed(),
    );
    if !check_pda(
        &event_md_seed_list,
        &a.metadata_program,
        &a.event_metadata,
        a.event.event_metadata_bump,
    ) {
        return Err(Error::ConstraintSeeds);
    }
    let event_me_seed_list = seeds4(
        metadata_tag_bytes(),
        a.metadata_program.to_seed(),
        a.event_mint.to_seed(),
        edition_tag_bytes(),
    );
    if !check_pda(
        &event_me_seed_list,
        &a.metadata_program,
        &a.event_master_edition,
        a.event.event_master_edition_bump,
    ) {
        return Err(Error::ConstraintSeeds);
    }
    let machine_seed_list = seeds3(
        ticket_machine_tag_bytes(),
        a.event_key.to_seed(),
        a.ticket_machine_base.to_seed(),
    );
    if !check_pda(&machine_seed_list, program_id, &a.ticket_machine_key, a.ticket_machine.bump) {
        return Err(Error::ConstraintSeeds);
    }
    if a.ticket_machine.quantity < 1 || a.ticket_machine.sold > a.ticket_machine.quantity - 1 {
        return Err(Error::Code(ErrorCode::NotEnoughTicketsAvailable));
    }
    if !(a.buyer_vault_mint == a.event.accepted_mint) {
        return Err(Error::ConstraintRaw);
    }
    let event_vault_seed_list = seeds2(event_vault_tag_bytes(), a.event_key.to_seed());
    if !check_pda(&event_vault_seed_list, program_id, &a.event_vault, a.event.event_vault_bump) {
        return Err(Error::ConstraintSeeds);
    }
    let mint_seed_list = seeds4(
        ticket_mint_tag_bytes(),
        a.event_key.to_seed(),
        a.ticket_machine_key.to_seed(),
        a.ticket_mint_base.to_seed(),
    );
    let mint_bump: u8 = match find_pda(&mint_seed_list, program_id) {
        None => {
            return Err(Error::BumpNotFound);
        },
        Some(p) => {
            if !(p.0 == a.ticket_mint) {
                return Err(Error::ConstraintSeeds);
            }
            if a.ticket_mint_occupied {
                return Err(Error::AccountAlreadyInUse);
            }
            p.1
        },
    };
    let md_seed_list = seeds3(
        metadata_tag_bytes(),
        a.metadata_program.to_seed(),
        a.ticket_mint.to_seed(),
    );
    let md_bump: u8 = match find_pda(&md_seed_list, &a.metadata_program) {
        None => {
            return Err(Error::BumpNotFound);
        },
        Some(p) => {
            if !(p.0 == a.ticket_metadata) {
                return Err(Error::ConstraintSeeds);
            }
            p.1
        },
    };
    let me_seed_list = seeds4(
        metadata_tag_bytes(),
        a.metadata_program.to_seed(),
        a.ticket_mint.to_seed(),
        edition_tag_bytes(),
    );
    let me_bump: u8 = match find_pda(&me_seed_list, &a.metadata_program) {
        None => {
            return Err(Error::BumpNotFound);
        },
        Some(p) => {
            if !(p.0 == a.ticket_master_edition) {
                return Err(Error::ConstraintSeeds);
            }
            p.1
        },
    };
    let vault_seed_list = seeds3(
        a.authority.to_seed(),
        a.token_program.to_seed(),
        a.ticket_mint.to_seed(),
    );
    match find_pda(&vault_seed_list, &a.associated_token_program) {
        None => {
            return Err(Error::BumpNotFound);
        },
        Some(p) => {
            if !(p.0 == a.ticket_vault) {
                return Err(Error::ConstraintSeeds);
            }
            if a.ticket_vault_occupied {
                return Err(Error::AccountAlreadyInUse);
            }
        },
    };
    let ticket_seed_list = seeds2(ticket_tag_bytes(), a.ticket_mint.to_seed());
    let ticket_bump: u8 = match find_pda(&ticket_seed_list, program_id) {
        None => {
            return Err(Error::BumpNotFound);
        },
        Some(p) => {
            if !(p.0 == a.ticket_key) {
                return Err(Error::ConstraintSeeds);
            }
            if a.ticket_occupied {
                return Err(Error::AccountAlreadyInUse);
            }
            p.1
        },
    };
    a.ticket_machine.sold = a.ticket_machine.sold + 1;
    let uses = a.ticket_machine.uses;
    Ok(MintTicketOutput {
        ticket: Ticket {
            authority: a.authority,
            checked_in: false,
            bump: ticket_bump,
            associated_token_bump: ticket_vault_bump,
            mint_bump,
            metadata_bump: md_bump,
            master_edition_bump: me_bump,
        },
        transfer: Transfer {
            from: a.buyer_vault,
            to: a.event_vault,
            authority: a.authority,
            amount: a.ticket_machine.price,
        },
        mint_to: MintTo {
            mint: a.ticket_mint,
            to: a.ticket_vault,
            authority: a.event_key,
            amount: 1,
        },
        create_metadata: CreateMetadata {
            metadata: a.ticket_metadata,
            mint: a.ticket_mint,
            mint_authority: a.event_key,
            payer: a.authority,
            update_authority: a.event_key,
            name: a.ticket_machine.name.clone(),
            symbol: a.ticket_machine.symbol.clone(),
            uri: a.ticket_machine.uri.clone(),
            uses: Some(Uses {
                remaining: uses,
                total: uses,
                use_method: if uses == 1 {
                    UseMethod::Single
                } else {
                    UseMethod::Multiple
                },
            }),
        },
        create_master_edition: CreateMasterEdition {
            edition: a.ticket_master_edition,
            mint: a.ticket_mint,
            update_authority: a.event_key,
            mint_authority: a.event_key,
            metadata: a.ticket_metadata,
            payer: a.authority,
            max_supply: Some(0u64),
        },
        set_and_verify_collection: SetAndVerifyCollection {
            metadata: a.ticket_metadata,
            collection_authority: a.event_key,
            payer: a.authority,
            update_authority: a.event_key,
            collection_mint: a.event_mint,
            collection_metadata: a.event_metadata,
            collection_master_edition: a.event_master_edition,
        },
    })
}

} // verus!
