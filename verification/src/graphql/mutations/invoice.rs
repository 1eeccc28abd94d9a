//! Mutations of invoices.
pub mod add;
pub mod delete;
pub mod set_custom_id;
pub mod set_url;
