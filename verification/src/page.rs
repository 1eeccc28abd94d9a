//! The pages: each holds the tree that it fetched, applies the actions of
//! the user to it at once, and says which requests go to the remote store.
pub mod clients_and_projects;
pub mod model;
pub mod time_blocks;
pub mod time_tracker;
