//! Operations on ticket machines and tickets.

pub mod create_ticket_machine;
pub mod mint_ticket;
pub mod set_ticket_authority;
pub mod verify_ticket_ownership;
