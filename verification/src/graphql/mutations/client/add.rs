//! The mutation that adds a client.
use vstd::prelude::*;

verus! {

/// What the mutation is built from.
#[derive(Debug)]
pub struct AddClientArguments {
    pub id: String,
    pub user: String,
}

/// The input object of `addClient`.
#[derive(Debug)]
pub struct AddClientInput {
    pub id: String,
    pub name: String,
    pub projects: Vec<ProjectRef>,
    pub time_blocks: Vec<TimeBlockRef>,
    pub user: String,
}

/// A reference to a project; a new client has none.
#[derive(Debug)]
pub struct ProjectRef {
}

/// A reference to a time block; a new client has none.
#[derive(Debug)]
pub struct TimeBlockRef {
}

/// What the remote store answers: how many nodes the mutation touched.
#[derive(Debug)]
pub struct AddClientPayload {
    pub num_uids: Option<i32>,
}

/// The answer to the mutation as a whole.
#[derive(Debug)]
pub struct Mutation {
    pub add_client: Option<AddClientPayload>,
}

/// The input of the mutation: one client without a name, without projects
/// and without time blocks, owned by `args.user`.
pub fn input(args: &AddClientArguments) -> (input: Vec<AddClientInput>)
    ensures
        input@.len() == 1,
        input@[0].id@ == args.id@,
        input@[0].name@ == Seq::<char>::empty(),
        input@[0].projects@.len() == 0,
        input@[0].time_blocks@.len() == 0,
        input@[0].user@ == args.user@,
{
    let mut input = Vec::new();
    input.push(
        AddClientInput {
            id: args.id.clone(),
            name: String::new(),
            projects: Vec::new(),
            time_blocks: Vec::new(),
            user: args.user.clone(),
        },
    );
    input
}

} // verus!
