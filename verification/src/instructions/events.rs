//! Creating events and checking tickets in.

pub mod check_in;
pub mod create_event;
