//! The mutation that deletes a client.
use vstd::prelude::*;

verus! {

/// What the mutation is built from.
#[derive(Debug)]
pub struct DeleteClientArguments {
    pub id: String,
}

/// Selects the nodes that the mutation applies to.
#[derive(Debug)]
pub struct ClientFilter {
    pub id: Option<StringHashFilter>,
}

/// Matches a text field against one value.
#[derive(Debug)]
pub struct StringHashFilter {
    pub eq: Option<String>,
}

/// Whether `filter` selects exactly the node whose identifier reads `id`.
pub open spec fn selects(filter: ClientFilter, id: Seq<char>) -> bool {
    filter.id matches Some(by_id) && by_id.eq matches Some(text) && text@ == id
}

/// What the remote store answers: how many nodes the mutation touched.
#[derive(Debug)]
pub struct DeleteClientPayload {
    pub num_uids: Option<i32>,
}

/// The answer to the mutation as a whole.
#[derive(Debug)]
pub struct Mutation {
    pub delete_client: Option<DeleteClientPayload>,
}

/// The filter of the mutation: it selects the client named by `args.id`.
pub fn filter(args: &DeleteClientArguments) -> (filter: ClientFilter)
    ensures
        selects(filter, args.id@),
{
    ClientFilter { id: Some(StringHashFilter { eq: Some(args.id.clone()) }) }
}

} // verus!
