//! The bounded-supply issuance counter of one ticket kind.

use vstd::prelude::*;

verus! {

/// Per-event inventory engine: display metadata, price, total quantity,
/// sold and used counters and the per-unit use allowance.
///
/// Well-formed machines keep `sold <= quantity` and `used <= sold` at all
/// times; see [`TicketMachine::wf`].
#[derive(Clone, Debug)]
pub struct TicketMachine {
    pub name: String,
    pub symbol: String,
    pub uri: String,
    pub price: u64,
    pub quantity: u64,
    pub sold: u64,
    pub used: u64,
    pub uses: u64,
    pub bump: u8,
}

impl TicketMachine {
    /// Persisted size: discriminator, three length-prefixed strings and the
    /// counters.
    pub const SIZE: usize = 8 + 36 + 204 + 14 + 8 + 8 + 8 + 8 + 8 + 1;

    /// The inventory invariant: never more sold than the quantity, never
    /// more used than sold.
    pub open spec fn wf(self) -> bool {
        self.sold <= self.quantity && self.used <= self.sold
    }
}

} // verus!
