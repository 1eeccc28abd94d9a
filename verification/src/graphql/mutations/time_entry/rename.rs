//! The mutation that gives a time entry a new name.
use vstd::prelude::*;

verus! {

/// What the mutation is built from.
#[derive(Debug)]
pub struct RenameTimeEntryArguments {
    pub id: String,
    pub name: String,
}

/// The input object of `updateTimeEntry`.
#[derive(Debug)]
pub struct UpdateTimeEntryInput {
    pub filter: TimeEntryFilter,
    pub set: Option<TimeEntryPatch>,
}

/// Selects the nodes that the mutation applies to.
#[derive(Debug)]
pub struct TimeEntryFilter {
    pub id: Option<StringHashFilter>,
}

/// Matches a text field against one value.
#[derive(Debug)]
pub struct StringHashFilter {
    pub eq: Option<String>,
}

/// Whether `filter` selects exactly the node whose identifier reads `id`.
pub open spec fn selects(filter: TimeEntryFilter, id: Seq<char>) -> bool {
    filter.id matches Some(by_id) && by_id.eq matches Some(text) && text@ == id
}

/// The fields that the mutation sets.
#[derive(Debug)]
pub struct TimeEntryPatch {
    pub name: Option<String>,
}

/// What the remote store answers: how many nodes the mutation touched.
#[derive(Debug)]
pub struct UpdateTimeEntryPayload {
    pub num_uids: Option<i32>,
}

/// The answer to the mutation as a whole.
#[derive(Debug)]
pub struct Mutation {
    pub update_time_entry: Option<UpdateTimeEntryPayload>,
}

/// The input of the mutation: the time entry named by `args.id` gets the new value.
pub fn input(args: &RenameTimeEntryArguments) -> (input: UpdateTimeEntryInput)
    ensures
        selects(input.filter, args.id@),
        input.set matches Some(patch) && patch.name matches Some(value)
            && value@ == args.name@,
{
    UpdateTimeEntryInput {
        filter: TimeEntryFilter { id: Some(StringHashFilter { eq: Some(args.id.clone()) }) },
        set: Some(TimeEntryPatch { name: Some(args.name.clone()) }),
    }
}

} // verus!
