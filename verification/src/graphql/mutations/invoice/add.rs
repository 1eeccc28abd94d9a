//! The mutation that attaches an invoice to a time block.
use vstd::prelude::*;

verus! {

/// What the mutation is built from.
#[derive(Debug)]
pub struct AddInvoiceArguments {
    pub id: String,
    pub time_block: String,
}

/// The input object of `addInvoice`.
#[derive(Debug)]
pub struct AddInvoiceInput {
    pub id: String,
    pub time_block: TimeBlockRef,
}

/// A reference to the time block that owns the invoice.
#[derive(Debug)]
pub struct TimeBlockRef {
    pub id: Option<String>,
}

/// What the remote store answers: how many nodes the mutation touched.
#[derive(Debug)]
pub struct AddInvoicePayload {
    pub num_uids: Option<i32>,
}

/// The answer to the mutation as a whole.
#[derive(Debug)]
pub struct Mutation {
    pub add_invoice: Option<AddInvoicePayload>,
}

/// The input of the mutation: one invoice, owned by the time block named
/// by `args.time_block`.
pub fn input(args: &AddInvoiceArguments) -> (input: Vec<AddInvoiceInput>)
    ensures
        input@.len() == 1,
        input@[0].id@ == args.id@,
        input@[0].time_block.id matches Some(owner) && owner@ == args.time_block@,
{
    let mut input = Vec::new();
    input.push(
        AddInvoiceInput {
            id: args.id.clone(),
            time_block: TimeBlockRef { id: Some(args.time_block.clone()) },
        },
    );
    input
}

} // verus!
