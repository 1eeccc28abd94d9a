//! Mutations of time entrys.
pub mod add;
pub mod delete;
pub mod rename;
pub mod set_times;
