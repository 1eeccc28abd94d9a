//! The mutation that adds a time entry to a project.
use vstd::prelude::*;
use crate::graphql::types::DateTime;
use crate::time::Timestamp;
use crate::time::format_rfc3339;
use crate::time::rfc3339_text;

verus! {

/// What the mutation is built from.
#[derive(Debug)]
pub struct AddTimeEntryArguments {
    pub id: String,
    pub name: String,
    pub project: String,
    pub started: Timestamp,
}

/// The input object of `addTimeEntry`.
#[derive(Debug)]
pub struct AddTimeEntryInput {
    pub id: String,
    pub name: String,
    pub started: DateTime,
    pub project: ProjectRef,
}

/// A reference to the project that owns the time entry.
#[derive(Debug)]
pub struct ProjectRef {
    pub id: Option<String>,
}

/// What the remote store answers: how many nodes the mutation touched.
#[derive(Debug)]
pub struct AddTimeEntryPayload {
    pub num_uids: Option<i32>,
}

/// The answer to the mutation as a whole.
#[derive(Debug)]
pub struct Mutation {
    pub add_time_entry: Option<AddTimeEntryPayload>,
}

/// Whether `project` refers to the project whose identifier reads `id`.
pub open spec fn owned_by(project: ProjectRef, id: Seq<char>) -> bool {
    project.id matches Some(owner) && owner@ == id
}

/// The start of the entry as the remote store expects it.
pub open spec fn started_text(args: AddTimeEntryArguments) -> Option<Seq<char>> {
    rfc3339_text(args.started.secs as int, args.started.nanos as int, args.started.offset as int)
}

/// The input of the mutation: one time entry that started at `args.started`,
/// owned by the project named by `args.project`. There is no input where
/// the start cannot be written as text.
pub fn input(args: &AddTimeEntryArguments) -> (input: Option<Vec<AddTimeEntryInput>>)
    ensures
        match input {
            Some(input) => {
                &&& input@.len() == 1
                &&& input@[0].id@ == args.id@
                &&& input@[0].name@ == args.name@
                &&& started_text(*args) == Some(input@[0].started.0@)
                &&& owned_by(input@[0].project, args.project@)
            },
            None => started_text(*args) is None,
        },
{
    match format_rfc3339(&args.started) {
        Some(started) => {
            let mut input = Vec::new();
            input.push(
                AddTimeEntryInput {
                    id: args.id.clone(),
                    name: args.name.clone(),
                    started: DateTime(started),
                    project: ProjectRef { id: Some(args.project.clone()) },
                },
            );
            Some(input)
        },
        None => None,
    }
}

} // verus!
