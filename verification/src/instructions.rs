//! The operations of the program, one module per instruction.

pub mod collaborators;
pub mod events;
pub mod tickets;
