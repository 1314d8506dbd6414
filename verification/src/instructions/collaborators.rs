//! Granting and revoking delegated authority over an event.

pub mod create_collaborator;
pub mod delete_collaborator;
