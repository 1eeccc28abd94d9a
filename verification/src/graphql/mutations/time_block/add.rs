//! The mutation that adds a time block to a client.
use vstd::prelude::*;
use crate::entity::TimeBlockStatus;
use crate::time::Duration;

verus! {

/// What the mutation is built from.
#[derive(Debug)]
pub struct AddTimeBlockArguments {
    pub id: String,
    pub client: String,
    pub duration: Duration,
}

/// The input object of `addTimeBlock`.
#[derive(Debug)]
pub struct AddTimeBlockInput {
    pub id: String,
    pub name: String,
    /// Whole seconds.
    pub duration: i32,
    pub status: TimeBlockStatus,
    pub client: ClientRef,
}

/// A reference to the client that owns the time block.
#[derive(Debug)]
pub struct ClientRef {
    pub id: Option<String>,
}

/// What the remote store answers: how many nodes the mutation touched.
#[derive(Debug)]
pub struct AddTimeBlockPayload {
    pub num_uids: Option<i32>,
}

/// The answer to the mutation as a whole.
#[derive(Debug)]
pub struct Mutation {
    pub add_time_block: Option<AddTimeBlockPayload>,
}

/// The input of the mutation: one unpaid time block without a name, owned
/// by the client named by `args.client`. Its duration is the whole seconds
/// of `args.duration`, cut to 32 bits.
pub fn input(args: &AddTimeBlockArguments) -> (input: Vec<AddTimeBlockInput>)
    ensures
        input@.len() == 1,
        input@[0].id@ == args.id@,
        input@[0].name@ == Seq::<char>::empty(),
        input@[0].duration == args.duration.seconds() as i32,
        input@[0].status == TimeBlockStatus::Unpaid,
        input@[0].client.id matches Some(owner) && owner@ == args.client@,
{
    let seconds: i128 = args.duration.num_seconds();
    let mut input = Vec::new();
    input.push(
        AddTimeBlockInput {
            id: args.id.clone(),
            name: String::new(),
            duration: #[verifier::truncate]
            (seconds as i32),
            status: TimeBlockStatus::Unpaid,
            client: ClientRef { id: Some(args.client.clone()) },
        },
    );
    input
}

} // verus!
