//! All clients with their projects and the time entries of each project.
use vstd::prelude::*;
use crate::graphql::types::DateTime;

verus! {

/// What the query returns. A client that the remote store could not
/// resolve comes as `None`.
#[derive(Debug)]
pub struct Query {
    pub query_client: Option<Vec<Option<Client>>>,
}

#[derive(Debug)]
pub struct Client {
    pub id: String,
    pub name: String,
    pub projects: Vec<Project>,
}

#[derive(Debug)]
pub struct Project {
    pub id: String,
    pub name: String,
    pub time_entries: Vec<TimeEntry>,
}

#[derive(Debug)]
pub struct TimeEntry {
    pub id: String,
    pub name: String,
    pub started: DateTime,
    pub stopped: Option<DateTime>,
}

} // verus!
