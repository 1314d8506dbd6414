//! Granting a collaborator record under an event.

use vstd::prelude::*;
use crate::collections::{Collaborator, Event};
use crate::errors::{Error, ErrorCode};
use crate::pda::{
    check_pda, clone_bytes, collaborator_seeds, collaborator_tag_bytes, event_seeds,
    event_tag_bytes, find_pda, pda_matches, pda_result, seeds3, Addr,
};

verus! {

/// The records and identities referenced by one `CreateCollaborator` call.
///
/// `authority` is the identity whose signature the host runtime has already
/// verified.  `collaborator_occupied` reports whether a record already
/// exists at the collaborator's derived address.
pub struct CreateCollaborator {
    pub authority: Addr,
    pub event_base: Addr,
    /// The event record, stored at `event_key`.
    pub event: Event,
    pub event_key: Addr,
    pub collaborator_base: Addr,
    pub collaborator_key: Addr,
    pub collaborator_occupied: bool,
}

/// The outcome of resolving and checking the referenced records: the
/// event's derived address, the caller's authority over the event, then the
/// collaborator's derived address and its vacancy.  `Ok` carries the bump
/// chosen for the collaborator record.
pub open spec fn create_collaborator_check(
    a: CreateCollaborator,
    event_id: Seq<u8>,
    program: Seq<u8>,
) -> Result<u8, Error> {
    if !pda_matches(event_seeds(a.event_base@, event_id), program, a.event_key@, a.event.bump) {
        Err(Error::ConstraintSeeds)
    } else if a.event.authority@ != a.authority@ {
        Err(Error::Code(ErrorCode::OnlyEventAuthorityCanCreateCollaborators))
    } else {
        match pda_result(collaborator_seeds(a.event_key@, a.collaborator_base@), program) {
            None => Err(Error::BumpNotFound),
            Some((addr, bump)) => if addr != a.collaborator_key@ {
                Err(Error::ConstraintSeeds)
            } else if a.collaborator_occupied {
                Err(Error::AccountAlreadyInUse)
            } else {
                Ok(bump)
            },
        }
    }
}

/// Creates a collaborator record scoped to an event and a base key.
///
/// Succeeds exactly when the event record matches its derived address, the
/// caller is the event's authority, and the collaborator's derived address
/// matches the given key and is vacant.  Any other caller fails with
/// `OnlyEventAuthorityCanCreateCollaborators` and no record is created.
pub fn handle(
    a: &CreateCollaborator,
    event_id: &Vec<u8>,
    program_id: &Addr,
) -> (r: Result<Collaborator, Error>)
    ensures
        match create_collaborator_check(*a, event_id@, program_id@) {
            Ok(bump) => r matches Ok(c) && c.bump == bump,
            Err(e) => r matches Err(e2) && e2 == e,
        },
        a.event.authority@ != a.authority@ ==> r is Err,
{
    let event_seed_list = seeds3(
        event_tag_bytes(),
        a.event_base.to_seed(),
        clone_bytes(event_id),
    );
    if !check_pda(&event_seed_list, program_id, &a.event_key, a.event.bump) {
        return Err(Error::ConstraintSeeds);
    }
    if !(a.event.authority == a.authority) {
        return Err(Error::Code(ErrorCode::OnlyEventAuthorityCanCreateCollaborators));
    }
    let collaborator_seed_list = seeds3(
        collaborator_tag_bytes(),
        a.event_key.to_seed(),
        a.collaborator_base.to_seed(),
    );
    match find_pda(&collaborator_seed_list, program_id) {
        None => Err(Error::BumpNotFound),
        Some(p) => {
            if !(p.0 == a.collaborator_key) {
                return Err(Error::ConstraintSeeds);
            }
            if a.collaborator_occupied {
                return Err(Error::AccountAlreadyInUse);
            }
            Ok(Collaborator { bump: p.1 })
        },
    }
}

} // verus!
