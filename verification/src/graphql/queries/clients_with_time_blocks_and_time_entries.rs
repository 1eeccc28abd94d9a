//! All clients with their time blocks and invoices, and with the times of
//! the entries of their projects.
use vstd::prelude::*;
use crate::graphql::types::DateTime;

verus! {

/// What the query returns. A client that the remote store could not
/// resolve comes as `None`.
#[derive(Debug)]
pub struct Query {
    pub query_client: Option<Vec<Option<Client>>>,
}

#[derive(Debug)]
pub struct Client {
    pub id: String,
    pub name: String,
    pub time_blocks: Vec<TimeBlock>,
    pub projects: Vec<Project>,
}

#[derive(Debug)]
pub struct TimeBlock {
    pub id: String,
    pub name: String,
    pub status: TimeBlockStatus,
    /// Whole seconds.
    pub duration: i32,
    pub invoice: Option<Invoice>,
}

#[derive(Debug, Clone, Copy, PartialEq, Eq, Structural)]
pub enum TimeBlockStatus {
    NonBillable,
    Unpaid,
    Paid,
}

#[derive(Debug)]
pub struct Invoice {
    pub id: String,
    pub custom_id: Option<String>,
    pub url: Option<String>,
}

#[derive(Debug)]
pub struct Project {
    pub time_entries: Vec<TimeEntry>,
}

#[derive(Debug)]
pub struct TimeEntry {
    pub started: DateTime,
    pub stopped: Option<DateTime>,
}

} // verus!
