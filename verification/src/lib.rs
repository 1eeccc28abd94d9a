//! State engine of a time tracker: the tree of clients, projects, time
//! blocks, time entries and invoices that a page holds, the edits that are
//! applied to it at once, and the remote mutations that each edit asks for.
pub mod command;
pub mod duration_text;
pub mod entity;
pub mod fetched;
pub mod graphql;
pub mod ident;
pub mod order;
pub mod page;
pub mod remote_data;
pub mod time;
pub mod time_block;
pub mod time_entry;
pub mod tracking;
pub mod tree;
