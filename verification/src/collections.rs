//! The persistent records of the ticketing program.

pub mod collaborator;
pub mod event;
pub mod ticket;
pub mod ticket_machine;

pub use collaborator::Collaborator;
pub use event::Event;
pub use ticket::Ticket;
pub use ticket_machine::TicketMachine;
