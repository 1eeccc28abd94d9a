//! The mutation that sets the number under which an invoice is filed.
use vstd::prelude::*;

verus! {

/// What the mutation is built from.
#[derive(Debug)]
pub struct SetInvoiceCustomIdArguments {
    pub id: String,
    pub custom_id: String,
}

/// The input object of `updateInvoice`.
#[derive(Debug)]
pub struct UpdateInvoiceInput {
    pub filter: InvoiceFilter,
    pub set: Option<InvoicePatch>,
}

/// Selects the nodes that the mutation applies to.
#[derive(Debug)]
pub struct InvoiceFilter {
    pub id: Option<StringHashFilter>,
}

/// Matches a text field against one value.
#[derive(Debug)]
pub struct StringHashFilter {
    pub eq: Option<String>,
}

/// Whether `filter` selects exactly the node whose identifier reads `id`.
pub open spec fn selects(filter: InvoiceFilter, id: Seq<char>) -> bool {
    filter.id matches Some(by_id) && by_id.eq matches Some(text) && text@ == id
}

/// The fields that the mutation sets.
#[derive(Debug)]
pub struct InvoicePatch {
    pub custom_id: Option<String>,
}

/// What the remote store answers: how many nodes the mutation touched.
#[derive(Debug)]
pub struct UpdateInvoicePayload {
    pub num_uids: Option<i32>,
}

/// The answer to the mutation as a whole.
#[derive(Debug)]
pub struct Mutation {
    pub update_invoice: Option<UpdateInvoicePayload>,
}

/// The input of the mutation: the invoice named by `args.id` gets the new value.
pub fn input(args: &SetInvoiceCustomIdArguments) -> (input: UpdateInvoiceInput)
    ensures
        selects(input.filter, args.id@),
        input.set matches Some(patch) && patch.custom_id matches Some(value)
            && value@ == args.custom_id@,
{
    UpdateInvoiceInput {
        filter: InvoiceFilter { id: Some(StringHashFilter { eq: Some(args.id.clone()) }) },
        set: Some(InvoicePatch { custom_id: Some(args.custom_id.clone()) }),
    }
}

} // verus!
