//! The ownership and redemption record of one minted ticket unit.

use vstd::prelude::*;
use crate::pda::Addr;

verus! {

/// One record per minted ticket: its current authority (owner), whether it
/// has been checked in, and the disambiguation bytes of its minted unit and
/// dependent sub-records.
///
/// `checked_in` moves from `false` to `true` exactly once and is never
/// reversed; while it is `true` the authority can no longer change.
#[derive(Clone, Copy, Debug)]
pub struct Ticket {
    pub authority: Addr,
    pub checked_in: bool,
    pub bump: u8,
    pub associated_token_bump: u8,
    pub mint_bump: u8,
    pub metadata_bump: u8,
    pub master_edition_bump: u8,
}

impl Ticket {
    /// Persisted size: discriminator, the authority address, the flag and
    /// five bump bytes.
    pub const SIZE: usize = 8 + 32 + 1 + 1 + 1 + 1 + 1 + 1;
}

} // verus!
