//! The mutation that deletes a time entry.
use vstd::prelude::*;

verus! {

/// What the mutation is built from.
#[derive(Debug)]
pub struct DeleteTimeEntryArguments {
    pub id: String,
}

/// Selects the nodes that the mutation applies to.
#[derive(Debug)]
pub struct TimeEntryFilter {
    pub id: Option<StringHashFilter>,
}

/// Matches a text field against one value.
#[derive(Debug)]
pub struct StringHashFilter {
    pub eq: Option<String>,
}

/// Whether `filter` selects exactly the node whose identifier reads `id`.
pub open spec fn selects(filter: TimeEntryFilter, id: Seq<char>) -> bool {
    filter.id matches Some(by_id) && by_id.eq matches Some(text) && text@ == id
}

/// What the remote store answers: how many nodes the mutation touched.
#[derive(Debug)]
pub struct DeleteTimeEntryPayload {
    pub num_uids: Option<i32>,
}

/// The answer to the mutation as a whole.
#[derive(Debug)]
pub struct Mutation {
    pub delete_time_entry: Option<DeleteTimeEntryPayload>,
}

/// The filter of the mutation: it selects the time entry named by `args.id`.
pub fn filter(args: &DeleteTimeEntryArguments) -> (filter: TimeEntryFilter)
    ensures
        selects(filter, args.id@),
{
    TimeEntryFilter { id: Some(StringHashFilter { eq: Some(args.id.clone()) }) }
}

} // verus!
