//! Creating an event: its root record, its value vault and its
//! collection-representative unit.

use vstd::prelude::*;
use crate::collections::Event;
use crate::errors::Error;
use crate::pda::{
    edition_tag_bytes, event_collection_vault_seeds, event_collection_vault_tag_bytes,
    event_mint_seeds, event_mint_tag_bytes, event_seeds, event_tag_bytes, event_vault_seeds,
    event_vault_tag_bytes, find_pda, master_edition_seeds, metadata_seeds, metadata_tag_bytes,
    pda_result, clone_bytes, seeds2, seeds3, seeds4, Addr,
};
use crate::services::{CreateMasterEdition, CreateMetadata, MintTo};

verus! {

/// The records and identities referenced by one `CreateEvent` call.
///
/// `authority` is the identity whose signature the host runtime has already
/// verified; it becomes the event's root authority.  The `*_occupied` flags
/// report whether a record already exists at the derived address of each
/// record this operation creates.
pub struct CreateEvent {
    pub metadata_program: Addr,
    pub authority: Addr,
    pub event_base: Addr,
    pub event_key: Addr,
    pub event_occupied: bool,
    /// The payment unit the event accepts.
    pub accepted_mint: Addr,
    pub event_vault: Addr,
    pub event_vault_occupied: bool,
    pub event_mint: Addr,
    pub event_mint_occupied: bool,
    pub event_metadata: Addr,
    pub event_master_edition: Addr,
    pub event_collection_vault: Addr,
    pub event_collection_vault_occupied: bool,
}

/// The outcome of resolving the addresses of the records this operation
/// creates, in the order the runtime checks them.  `Ok` carries the bumps
/// chosen for the event record, its vault, its mint, its metadata and its
/// master edition.
pub open spec fn create_event_check(
    a: CreateEvent,
    event_id: Seq<u8>,
    program: Seq<u8>,
) -> Result<(u8, u8, u8, u8, u8), Error> {
    match pda_result(event_seeds(a.event_base@, event_id), program) {
        None => Err(Error::BumpNotFound),
        Some((event_addr, event_bump)) => if event_addr != a.event_key@ {
            Err(Error::ConstraintSeeds)
        } else if a.event_occupied {
            Err(Error::AccountAlreadyInUse)
        } else {
            match pda_result(event_vault_seeds(a.event_key@), program) {
                None => Err(Error::BumpNotFound),
                Some((vault_addr, vault_bump)) => if vault_addr != a.event_vault@ {
                    Err(Error::ConstraintSeeds)
                } else if a.event_vault_occupied {
                    Err(Error::AccountAlreadyInUse)
                } else {
                    match pda_result(event_mint_seeds(a.event_key@), program) {
                        None => Err(Error::BumpNotFound),
                        Some((mint_addr, mint_bump)) => if mint_addr != a.event_mint@ {
                            Err(Error::ConstraintSeeds)
                        } else if a.event_mint_occupied {
                            Err(Error::AccountAlreadyInUse)
                        } else {
                            match pda_result(
                                metadata_seeds(a.metadata_program@, a.event_mint@),
                                a.metadata_program@,
                            ) {
                                None => Err(Error::BumpNotFound),
                                Some((md_addr, md_bump)) => if md_addr != a.event_metadata@ {
                                    Err(Error::ConstraintSeeds)
                                } else {
                                    match pda_result(
                                        master_edition_seeds(a.metadata_program@, a.event_mint@),
                                        a.metadata_program@,
                                    ) {
                                        None => Err(Error::BumpNotFound),
                                        Some((me_addr, me_bump)) => if me_addr
                                            != a.event_master_edition@ {
                                            Err(Error::ConstraintSeeds)
                                        } else {
                                            match pda_result(
                                                event_collection_vault_seeds(a.event_key@),
                                                program,
                                            ) {
                                                None => Err(Error::BumpNotFound),
                                                Some((cv_addr, _cv_bump)) => if cv_addr
                                                    != a.event_collection_vault@ {
                                                    Err(Error::ConstraintSeeds)
                                                } else if a.event_collection_vault_occupied {
                                                    Err(Error::AccountAlreadyInUse)
                                                } else {
                                                    Ok((
                                                        event_bump,
                                                        vault_bump,
                                                        mint_bump,
                                                        md_bump,
                                                        me_bump,
                                                    ))
                                                },
                                            }
                                        },
                                    }
                                },
                            }
                        },
                    }
                },
            }
        },
    }
}

/// The record created and the external sub-calls the host must perform when
/// an event is created.
#[derive(Debug)]
pub struct CreateEventOutput {
    /// The new event record, to be stored at the event's derived address.
    pub event: Event,
    /// One collection-representative unit minted into the event's own vault.
    pub mint_to: MintTo,
    /// Display metadata for the collection-representative unit.
    pub create_metadata: CreateMetadata,
    /// The master edition pinning the collection-representative's supply.
    pub create_master_edition: CreateMasterEdition,
}

/// Creates an event.
///
/// Succeeds exactly when the derived addresses of the event record, its
/// vault, its mint and its collection vault match the given keys and are
/// vacant, and the metadata and master-edition addresses match.  The new
/// event records the accepted payment unit, the caller as root authority
/// and the chosen bumps; the host then mints one collection-representative
/// unit into the event's own vault and attaches its metadata and master
/// edition, all under the event's own signing authority.  On any failure
/// nothing is created.
pub fn handle(
    a: &CreateEvent,
    event_name: String,
    event_symbol: String,
    event_uri: String,
    event_id: &Vec<u8>,
    program_id: &Addr,
) -> (r: Result<CreateEventOutput, Error>)
    ensures
        match create_event_check(*a, event_id@, program_id@) {
            Err(e) => r matches Err(e2) && e2 == e,
            Ok(bumps) => r matches Ok(out)
                && out.event == (Event {
                    accepted_mint: a.accepted_mint,
                    authority: a.authority,
                    bump: bumps.0,
                    event_vault_bump: bumps.1,
                    event_mint_bump: bumps.2,
                    event_metadata_bump: bumps.3,
                    event_master_edition_bump: bumps.4,
                })
                && out.mint_to == (MintTo {
                    mint: a.event_mint,
                    to: a.event_collection_vault,
                    authority: a.event_key,
                    amount: 1,
                })
                && out.create_metadata.metadata == a.event_metadata
                && out.create_metadata.mint == a.event_mint
                && out.create_metadata.mint_authority == a.event_key
                && out.create_metadata.payer == a.authority
                && out.create_metadata.update_authority == a.event_key
                && out.create_metadata.name@ == event_name@
                && out.create_metadata.symbol@ == event_symbol@
                && out.create_metadata.uri@ == event_uri@
                && out.create_metadata.uses is None
                && out.create_master_edition == (CreateMasterEdition {
                    edition: a.event_master_edition,
                    mint: a.event_mint,
                    update_authority: a.event_key,
                    mint_authority: a.event_key,
                    metadata: a.event_metadata,
                    payer: a.authority,
                    max_supply: Some(0u64),
                }),
        },
        r is Ok ==> (r matches Ok(out) && out.event.authority@ == a.authority@),
{
    let event_seed_list = seeds3(
        event_tag_bytes(),
        a.event_base.to_seed(),
        clone_bytes(event_id),
    );
    let event_bump: u8 = match find_pda(&event_seed_list, program_id) {
        None => {
            return Err(Error::BumpNotFound);
        },
        Some(p) => {
            if !(p.0 == a.event_key) {
                return Err(Error::ConstraintSeeds);
            }
            if a.event_occupied {
                return Err(Error::AccountAlreadyInUse);
            }
            p.1
        },
    };
    let vault_seed_list = seeds2(event_vault_tag_bytes(), a.event_key.to_seed());
    let vault_bump: u8 = match find_pda(&vault_seed_list, program_id) {
        None => {
            return Err(Error::BumpNotFound);
        },
        Some(p) => {
            if !(p.0 == a.event_vault) {
                return Err(Error::ConstraintSeeds);
            }
            if a.event_vault_occupied {
                return Err(Error::AccountAlreadyInUse);
            }
            p.1
        },
    };
    let mint_seed_list = seeds2(event_mint_tag_bytes(), a.event_key.to_seed());
    let mint_bump: u8 = match find_pda(&mint_seed_list, program_id) {
        None => {
            return Err(Error::BumpNotFound);
        },
        Some(p) => {
            if !(p.0 == a.event_mint) {
                return Err(Error::ConstraintSeeds);
            }
            if a.event_mint_occupied {
                return Err(Error::AccountAlreadyInUse);
            }
            p.1
        },
    };
    let md_seed_list = seeds3(
        metadata_tag_bytes(),
        a.metadata_program.to_seed(),
        a.event_mint.to_seed(),
    );
    let md_bump: u8 = match find_pda(&md_seed_list, &a.metadata_program) {
        None => {
            return Err(Error::BumpNotFound);
        },
        Some(p) => {
            if !(p.0 == a.event_metadata) {
                return Err(Error::ConstraintSeeds);
            }
            p.1
        },
    };
    let me_seed_list = seeds4(
        metadata_tag_bytes(),
        a.metadata_program.to_seed(),
        a.event_mint.to_seed(),
        edition_tag_bytes(),
    );
    let me_bump: u8 = match find_pda(&me_seed_list, &a.metadata_program) {
        None => {
            return Err(Error::BumpNotFound);
        },
        Some(p) => {
            if !(p.0 == a.event_master_edition) {
                return Err(Error::ConstraintSeeds);
            }
            p.1
        },
    };
    let cv_seed_list = seeds2(event_collection_vault_tag_bytes(), a.event_key.to_seed());
    match find_pda(&cv_seed_list, program_id) {
        None => {
            return Err(Error::BumpNotFound);
        },
        Some(p) => {
            if !(p.0 == a.event_collection_vault) {
                return Err(Error::ConstraintSeeds);
            }
            if a.event_collection_vault_occupied {
                return Err(Error::AccountAlreadyInUse);
            }
        },
    };
    Ok(CreateEventOutput {
        event: Event {
            accepted_mint: a.accepted_mint,
            authority: a.authority,
            bump: event_bump,
            event_vault_bump: vault_bump,
            event_mint_bump: mint_bump,
            event_metadata_bump: md_bump,
            event_master_edition_bump: me_bump,
        },
        mint_to: MintTo {
            mint: a.event_mint,
            to: a.event_collection_vault,
            authority: a.event_key,
            amount: 1,
        },
        create_metadata: CreateMetadata {
            metadata: a.event_metadata,
            mint: a.event_mint,
            mint_authority: a.event_key,
            payer: a.authority,
            update_authority: a.event_key,
            name: event_name,
            symbol: event_symbol,
            uri: event_uri,
            uses: None,
        },
        create_master_edition: CreateMasterEdition {
            edition: a.event_master_edition,
            mint: a.event_mint,
            update_authority: a.event_key,
            mint_authority: a.event_key,
            metadata: a.event_metadata,
            payer: a.authority,
            max_supply: Some(0u64),
        },
    })
}

} // verus!
