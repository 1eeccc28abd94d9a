//! The queries that the pages send, one module each.
pub mod clients_with_projects;
pub mod clients_with_projects_with_time_entries;
pub mod clients_with_time_blocks_and_time_entries;
