//! The mutation that gives a time block a new name.
use vstd::prelude::*;

verus! {

/// What the mutation is built from.
#[derive(Debug)]
pub struct RenameTimeBlockArguments {
    pub id: String,
    pub name: String,
}

/// The input object of `updateTimeBlock`.
#[derive(Debug)]
pub struct UpdateTimeBlockInput {
    pub filter: TimeBlockFilter,
    pub set: Option<TimeBlockPatch>,
}

/// Selects the nodes that the mutation applies to.
#[derive(Debug)]
pub struct TimeBlockFilter {
    pub id: Option<StringHashFilter>,
}

/// Matches a text field against one value.
#[derive(Debug)]
pub struct StringHashFilter {
    pub eq: Option<String>,
}

/// Whether `filter` selects exactly the node whose identifier reads `id`.
pub open spec fn selects(filter: TimeBlockFilter, id: Seq<char>) -> bool {
    filter.id matches Some(by_id) && by_id.eq matches Some(text) && text@ == id
}

/// The fields that the mutation sets.
#[derive(Debug)]
pub struct TimeBlockPatch {
    pub name: Option<String>,
}

/// What the remote store answers: how many nodes the mutation touched.
#[derive(Debug)]
pub struct UpdateTimeBlockPayload {
    pub num_uids: Option<i32>,
}

/// The answer to the mutation as a whole.
#[derive(Debug)]
pub struct Mutation {
    pub update_time_block: Option<UpdateTimeBlockPayload>,
}

/// The input of the mutation: the time block named by `args.id` gets the new value.
pub fn input(args: &RenameTimeBlockArguments) -> (input: UpdateTimeBlockInput)
    ensures
        selects(input.filter, args.id@),
        input.set matches Some(patch) && patch.name matches Some(value)
            && value@ == args.name@,
{
    UpdateTimeBlockInput {
        filter: TimeBlockFilter { id: Some(StringHashFilter { eq: Some(args.id.clone()) }) },
        set: Some(TimeBlockPatch { name: Some(args.name.clone()) }),
    }
}

} // verus!
