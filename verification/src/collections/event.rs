//! The root record of one event.

use vstd::prelude::*;
use crate::pda::Addr;

verus! {

/// Root entity of an event: the payment unit it accepts, its authority, and
/// the disambiguation bytes of its dependent sub-records.
#[derive(Clone, Copy, Debug)]
pub struct Event {
    pub accepted_mint: Addr,
    pub authority: Addr,
    pub bump: u8,
    pub event_vault_bump: u8,
    pub event_mint_bump: u8,
    pub event_metadata_bump: u8,
    pub event_master_edition_bump: u8,
}

impl Event {
    /// Persisted size: discriminator, two addresses and five bump bytes.
    pub const SIZE: usize = 8 + 32 + 32 + 1 + 1 + 1 + 1 + 1;
}

} // verus!
