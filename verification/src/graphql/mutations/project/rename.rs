//! The mutation that gives a project a new name.
use vstd::prelude::*;

verus! {

/// What the mutation is built from.
#[derive(Debug)]
pub struct RenameProjectArguments {
    pub id: String,
    pub name: String,
}

/// The input object of `updateProject`.
#[derive(Debug)]
pub struct UpdateProjectInput {
    pub filter: ProjectFilter,
    pub set: Option<ProjectPatch>,
}

/// Selects the nodes that the mutation applies to.
#[derive(Debug)]
pub struct ProjectFilter {
    pub id: Option<StringHashFilter>,
}

/// Matches a text field against one value.
#[derive(Debug)]
pub struct StringHashFilter {
    pub eq: Option<String>,
}

/// Whether `filter` selects exactly the node whose identifier reads `id`.
pub open spec fn selects(filter: ProjectFilter, id: Seq<char>) -> bool {
    filter.id matches Some(by_id) && by_id.eq matches Some(text) && text@ == id
}

/// The fields that the mutation sets.
#[derive(Debug)]
pub struct ProjectPatch {
    pub name: Option<String>,
}

/// What the remote store answers: how many nodes the mutation touched.
#[derive(Debug)]
pub struct UpdateProjectPayload {
    pub num_uids: Option<i32>,
}

/// The answer to the mutation as a whole.
#[derive(Debug)]
pub struct Mutation {
    pub update_project: Option<UpdateProjectPayload>,
}

/// The input of the mutation: the project named by `args.id` gets the new value.
pub fn input(args: &RenameProjectArguments) -> (input: UpdateProjectInput)
    ensures
        selects(input.filter, args.id@),
        input.set matches Some(patch) && patch.name matches Some(value)
            && value@ == args.name@,
{
    UpdateProjectInput {
        filter: ProjectFilter { id: Some(StringHashFilter { eq: Some(args.id.clone()) }) },
        set: Some(ProjectPatch { name: Some(args.name.clone()) }),
    }
}

} // verus!
