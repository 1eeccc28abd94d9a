//! All clients with the names of their projects.
use vstd::prelude::*;

verus! {

/// What the query returns. A client that the remote store could not
/// resolve comes as `None`.
#[derive(Debug)]
pub struct Query {
    pub query_client: Option<Vec<Option<Client>>>,
}

#[derive(Debug)]
pub struct Client {
    pub id: String,
    pub name: String,
    pub projects: Vec<Project>,
}

#[derive(Debug)]
pub struct Project {
    pub id: String,
    pub name: String,
}

} // verus!
