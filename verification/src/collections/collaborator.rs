//! A delegated authority of one event.

use vstd::prelude::*;

verus! {

/// Existence of this record at its derived address is the permission itself;
/// the record stores only its own disambiguation byte.
#[derive(Clone, Copy, Debug)]
pub struct Collaborator {
    pub bump: u8,
}

impl Collaborator {
    /// Persisted size: discriminator and the bump byte.
    pub const SIZE: usize = 8 + 1;
}

} // verus!
