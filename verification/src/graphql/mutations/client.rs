//! Mutations of clients.
pub mod add;
pub mod delete;
pub mod rename;
