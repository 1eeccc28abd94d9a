//! The mutations that the remote store accepts, one module each.
pub mod client;
pub mod invoice;
pub mod project;
pub mod time_block;
pub mod time_entry;
