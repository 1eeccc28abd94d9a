//! The mutation that deletes a time block.
use vstd::prelude::*;

verus! {

/// What the mutation is built from.
#[derive(Debug)]
pub struct DeleteTimeBlockArguments {
    pub id: String,
}

/// Selects the nodes that the mutation applies to.
#[derive(Debug)]
pub struct TimeBlockFilter {
    pub id: Option<StringHashFilter>,
}

/// Matches a text field against one value.
#[derive(Debug)]
pub struct StringHashFilter {
    pub eq: Option<String>,
}

/// Whether `filter` selects exactly the node whose identifier reads `id`.
pub open spec fn selects(filter: TimeBlockFilter, id: Seq<char>) -> bool {
    filter.id matches Some(by_id) && by_id.eq matches Some(text) && text@ == id
}

/// What the remote store answers: how many nodes the mutation touched.
#[derive(Debug)]
pub struct DeleteTimeBlockPayload {
    pub num_uids: Option<i32>,
}

/// The answer to the mutation as a whole.
#[derive(Debug)]
pub struct Mutation {
    pub delete_time_block: Option<DeleteTimeBlockPayload>,
}

/// The filter of the mutation: it selects the time block named by `args.id`.
pub fn filter(args: &DeleteTimeBlockArguments) -> (filter: TimeBlockFilter)
    ensures
        selects(filter, args.id@),
{
    TimeBlockFilter { id: Some(StringHashFilter { eq: Some(args.id.clone()) }) }
}

} // verus!
