//! The mutation that gives a client a new name.
use vstd::prelude::*;

verus! {

/// What the mutation is built from.
#[derive(Debug)]
pub struct RenameClientArguments {
    pub id: String,
    pub name: String,
}

/// The input object of `updateClient`.
#[derive(Debug)]
pub struct UpdateClientInput {
    pub filter: ClientFilter,
    pub set: Option<ClientPatch>,
}

/// Selects the nodes that the mutation applies to.
#[derive(Debug)]
pub struct ClientFilter {
    pub id: Option<StringHashFilter>,
}

/// Matches a text field against one value.
#[derive(Debug)]
pub struct StringHashFilter {
    pub eq: Option<String>,
}

/// Whether `filter` selects exactly the node whose identifier reads `id`.
pub open spec fn selects(filter: ClientFilter, id: Seq<char>) -> bool {
    filter.id matches Some(by_id) && by_id.eq matches Some(text) && text@ == id
}

/// The fields that the mutation sets.
#[derive(Debug)]
pub struct ClientPatch {
    pub name: Option<String>,
}

/// What the remote store answers: how many nodes the mutation touched.
#[derive(Debug)]
pub struct UpdateClientPayload {
    pub num_uids: Option<i32>,
}

/// The answer to the mutation as a whole.
#[derive(Debug)]
pub struct Mutation {
    pub update_client: Option<UpdateClientPayload>,
}

/// The input of the mutation: the client named by `args.id` gets the new value.
pub fn input(args: &RenameClientArguments) -> (input: UpdateClientInput)
    ensures
        selects(input.filter, args.id@),
        input.set matches Some(patch) && patch.name matches Some(value)
            && value@ == args.name@,
{
    UpdateClientInput {
        filter: ClientFilter { id: Some(StringHashFilter { eq: Some(args.id.clone()) }) },
        set: Some(ClientPatch { name: Some(args.name.clone()) }),
    }
}

} // verus!
