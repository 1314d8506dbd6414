//! Revoking a collaborator record of an event.

use vstd::prelude::*;
use crate::collections::{Collaborator, Event};
use crate::errors::{Error, ErrorCode};
use crate::pda::{
    check_pda, clone_bytes, collaborator_seeds, collaborator_tag_bytes, event_seeds,
    event_tag_bytes, find_pda, pda_matches, pda_result, seeds3, Addr,
};

verus! {

/// The records and identities referenced by one `DeleteCollaborator` call.
///
/// `authority` is the identity whose signature the host runtime has already
/// verified; the collaborator record's storage stake is refunded to it on
/// success.
pub struct DeleteCollaborator {
    pub authority: Addr,
    pub event_base: Addr,
    /// The event record, stored at `event_key`.
    pub event: Event,
    pub event_key: Addr,
    pub collaborator_base: Addr,
    /// The collaborator record to destroy, stored at `collaborator_key`.
    pub collaborator: Collaborator,
    pub collaborator_key: Addr,
}

/// The outcome of resolving and checking the referenced records: the
/// event's derived address, the caller's authority over the event, then the
/// collaborator's derived address.
pub open spec fn delete_collaborator_check(
    a: DeleteCollaborator,
    event_id: Seq<u8>,
    program: Seq<u8>,
) -> Result<(), Error> {
    if !pda_matches(event_seeds(a.event_base@, event_id), program, a.event_key@, a.event.bump) {
        Err(Error::ConstraintSeeds)
    } else if a.event.authority@ != a.authority@ {
        Err(Error::Code(ErrorCode::OnlyEventAuthorityCanDeleteCollaborators))
    } else {
        match pda_result(collaborator_seeds(a.event_key@, a.collaborator_base@), program) {
            None => Err(Error::BumpNotFound),
            Some((addr, _bump)) => if addr != a.collaborator_key@ {
                Err(Error::ConstraintSeeds)
            } else {
                Ok(())
            },
        }
    }
}

/// Destroys a collaborator record, revoking the permission immediately and
/// unconditionally; the host refunds the record's storage stake to the
/// caller.
///
/// Succeeds exactly when the event record matches its derived address, the
/// caller is the event's authority, and the collaborator record matches its
/// derived address.  Any other caller fails with
/// `OnlyEventAuthorityCanDeleteCollaborators` and the record stays.
pub fn handle(
    a: &DeleteCollaborator,
    event_id: &Vec<u8>,
    program_id: &Addr,
) -> (r: Result<(), Error>)
    ensures
        r == delete_collaborator_check(*a, event_id@, program_id@),
        a.event.authority@ != a.authority@ ==> r is Err,
{
    let event_seed_list = seeds3(
        event_tag_bytes(),
        a.event_base.to_seed(),
        clone_bytes(event_id),
    );
    if !check_pda(&event_seed_list, program_id, &a.event_key, a.event.bump) {
        return Err(Error::ConstraintSeeds);
    }
    if !(a.event.authority == a.authority) {
        return Err(Error::Code(ErrorCode::OnlyEventAuthorityCanDeleteCollaborators));
    }
    let collaborator_seed_list = seeds3(
        collaborator_tag_bytes(),
        a.event_key.to_seed(),
        a.collaborator_base.to_seed(),
    );
    match find_pda(&collaborator_seed_list, program_id) {
        None => Err(Error::BumpNotFound),
        Some(p) => {
            if !(p.0 == a.collaborator_key) {
                return Err(Error::ConstraintSeeds);
            }
            Ok(())
        },
    }
}

} // verus!
