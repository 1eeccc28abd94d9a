//! The mutation that adds a project to a client.
use vstd::prelude::*;

verus! {

/// What the mutation is built from.
#[derive(Debug)]
pub struct AddProjectArguments {
    pub id: String,
    pub client: String,
}

/// The input object of `addProject`.
#[derive(Debug)]
pub struct AddProjectInput {
    pub id: String,
    pub name: String,
    pub time_entries: Vec<TimeEntryRef>,
    pub client: ClientRef,
}

/// A reference to a time entry; a new project has none.
#[derive(Debug)]
pub struct TimeEntryRef {
}

/// A reference to the client that owns the project.
#[derive(Debug)]
pub struct ClientRef {
    pub id: Option<String>,
}

/// What the remote store answers: how many nodes the mutation touched.
#[derive(Debug)]
pub struct AddProjectPayload {
    pub num_uids: Option<i32>,
}

/// The answer to the mutation as a whole.
#[derive(Debug)]
pub struct Mutation {
    pub add_project: Option<AddProjectPayload>,
}

/// The input of the mutation: one project without a name and without time
/// entries, owned by the client named by `args.client`.
pub fn input(args: &AddProjectArguments) -> (input: Vec<AddProjectInput>)
    ensures
        input@.len() == 1,
        input@[0].id@ == args.id@,
        input@[0].name@ == Seq::<char>::empty(),
        input@[0].time_entries@.len() == 0,
        input@[0].client.id matches Some(owner) && owner@ == args.client@,
{
    let mut input = Vec::new();
    input.push(
        AddProjectInput {
            id: args.id.clone(),
            name: String::new(),
            time_entries: Vec::new(),
            client: ClientRef { id: Some(args.client.clone()) },
        },
    );
    input
}

} // verus!
