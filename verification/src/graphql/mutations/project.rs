//! Mutations of projects.
pub mod add;
pub mod delete;
pub mod rename;
