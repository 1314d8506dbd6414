//! Descriptions of the sub-calls an operation asks of the external
//! value-transfer, unit-mint and metadata/utility services.
//!
//! The program itself never moves balances or attaches metadata: when an
//! operation's preconditions pass it returns one of these values for each
//! external call the host runtime must perform within the same atomic
//! transaction.  Each struct carries exactly the arguments the call is made
//! with.

use vstd::prelude::*;
use crate::pda::Addr;

verus! {

/// Move `amount` value units between two holding records, authorized by the
/// source record's authority.
#[derive(Clone, Copy, Debug)]
pub struct Transfer {
    pub from: Addr,
    pub to: Addr,
    pub authority: Addr,
    pub amount: u64,
}

/// Mint `amount` units of `mint` into a holding record, authorized by the
/// mint's recorded minting authority.
#[derive(Clone, Copy, Debug)]
pub struct MintTo {
    pub mint: Addr,
    pub to: Addr,
    pub authority: Addr,
    pub amount: u64,
}

/// Burn `amount` units of `mint` out of a holding record, authorized by the
/// record's authority.
#[derive(Clone, Copy, Debug)]
pub struct Burn {
    pub mint: Addr,
    pub from: Addr,
    pub authority: Addr,
    pub amount: u64,
}

/// How the metadata service tracks consumption of a unit's uses.
#[derive(Clone, Copy, PartialEq, Eq, Structural, Debug)]
pub enum UseMethod {
    /// Exactly one use; consumed whole.
    Single,
    /// A counter of several uses.
    Multiple,
}

/// The use allowance attached to a unit's metadata.
#[derive(Clone, Copy, PartialEq, Eq, Structural, Debug)]
pub struct Uses {
    pub remaining: u64,
    pub total: u64,
    pub use_method: UseMethod,
}

/// Attach display metadata (and optionally a use allowance) to a unit.
#[derive(Clone, Debug)]
pub struct CreateMetadata {
    pub metadata: Addr,
    pub mint: Addr,
    pub mint_authority: Addr,
    pub payer: Addr,
    pub update_authority: Addr,
    pub name: String,
    pub symbol: String,
    pub uri: String,
    pub uses: Option<Uses>,
}

/// Create the master-edition record that pins a unit's supply.
#[derive(Clone, Copy, Debug)]
pub struct CreateMasterEdition {
    pub edition: Addr,
    pub mint: Addr,
    pub update_authority: Addr,
    pub mint_authority: Addr,
    pub metadata: Addr,
    pub payer: Addr,
    pub max_supply: Option<u64>,
}

/// Record a minted unit as a verified member of an event's collection.
#[derive(Clone, Copy, Debug)]
pub struct SetAndVerifyCollection {
    pub metadata: Addr,
    pub collection_authority: Addr,
    pub payer: Addr,
    pub update_authority: Addr,
    pub collection_mint: Addr,
    pub collection_metadata: Addr,
    pub collection_master_edition: Addr,
}

/// Consume one or more uses of a unit's allowance.
#[derive(Clone, Copy, Debug)]
pub struct Utilize {
    pub metadata: Addr,
    pub token_account: Addr,
    pub mint: Addr,
    pub use_authority: Addr,
    pub owner: Addr,
    pub number_of_uses: u64,
}

} // verus!
