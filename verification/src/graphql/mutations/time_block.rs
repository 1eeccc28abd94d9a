//! Mutations of time blocks.
pub mod add;
pub mod delete;
pub mod rename;
pub mod set_duration;
pub mod set_status;
