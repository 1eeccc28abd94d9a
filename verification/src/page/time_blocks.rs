//! The page on which hours are blocked for billing: time blocks are added
//! to a client, named, sized, marked as billed or paid, and given an invoice.
use vstd::prelude::*;
use crate::command::Command;
use crate::command::Mutation;
use crate::command::NameField;
use crate::command::asks;
use crate::command::focuses;
use crate::command::sends_and_then;
use crate::command::sends_one;
pub use crate::entity::Client;
use crate::entity::InvoiceView;
use crate::entity::TimeBlock;
pub use crate::entity::TimeBlockStatus;
use crate::entity::TimeBlockView;
use crate::entity::Tree;
use crate::graphql::GraphQLError;
use crate::ident::ClientId;
use crate::ident::Id;
use crate::ident::TimeBlockId;
use crate::ident::new_id;
use crate::page::model::ChangesStatus;
pub use crate::page::model::Model;
use crate::page::model::question;
use crate::time::Duration;
use crate::time_block::fresh_invoice;
use crate::time_block::fresh_time_block;
use crate::tree::get_client;
use crate::tree::get_time_block;
use crate::tree::lemma_same_projects_keep_one_running;
use crate::tree::lemma_with_time_block_after_without;
use crate::tree::one_runs_at_most;
use crate::tree::lemma_without_absent_time_block;
use crate::tree::put_time_block;
use crate::tree::take_time_block;
use crate::tree::time_block_at;
use crate::tree::with_time_block;
use crate::tree::without_time_block;

verus! {

/// What can happen on the page.
#[derive(Debug)]
pub enum Msg {
    ClientsFetched(Result<Tree, GraphQLError>),
    ChangesSaved(Option<GraphQLError>),
    ClearErrors,
    AddTimeBlock(ClientId),
    DeleteTimeBlock(ClientId, TimeBlockId),
    DeleteTimeBlockConfirmed(ClientId, TimeBlockId),
    SetTimeBlockStatus(ClientId, TimeBlockId, TimeBlockStatus),
    FocusTimeBlockName(ClientId, TimeBlockId),
    TimeBlockNameChanged(ClientId, TimeBlockId, String),
    SaveTimeBlockName(ClientId, TimeBlockId),
    TimeBlockDurationChanged(ClientId, TimeBlockId, String),
    SaveTimeBlockDuration(ClientId, TimeBlockId),
    /// The staged duration was read: it makes so many seconds, or it could
    /// not be read.
    TimeBlockDurationRead(ClientId, TimeBlockId, Option<i64>),
    AttachInvoice(ClientId, TimeBlockId),
    DeleteInvoice(ClientId, TimeBlockId),
    DeleteInvoiceConfirmed(ClientId, TimeBlockId),
    InvoiceCustomIdChanged(ClientId, TimeBlockId, String),
    SaveInvoiceCustomId(ClientId, TimeBlockId),
    InvoiceUrlChanged(ClientId, TimeBlockId, String),
    SaveInvoiceUrl(ClientId, TimeBlockId),
}

/// The question that is asked before a time block is deleted.
pub open spec fn delete_time_block_question(name: Seq<char>) -> Seq<char> {
    "Time Block \""@ + name + "\" will be deleted."@
}

/// The question that is asked before the invoice of a time block is deleted.
pub open spec fn delete_invoice_question(name: Seq<char>) -> Seq<char> {
    "Invoice attached to Time Block \""@ + name + "\" will be deleted."@
}

/// A text that may be missing, as the remote store gets it.
pub open spec fn text_or_empty(text: Option<Seq<char>>) -> Seq<char> {
    match text {
        Some(t) => t,
        None => Seq::empty(),
    }
}

/// Whether `cmds` is the one command to have `text` read as hours for a time block.
pub open spec fn reads_hours(
    cmds: Seq<Command<Msg>>,
    client: ClientId,
    block: TimeBlockId,
    text: Seq<char>,
) -> bool {
    cmds.len() == 1 && (cmds[0] matches Command::ReadHours(c, b, t) && c == client && b == block
        && t@ == text)
}

/// What adding a time block under the fresh identifier `id` does: the client
/// gains an unpaid block as long as its newest one, a mutation to add it is
/// sent, and its name field is focused after the next render. Without the
/// client nothing happens.
pub open spec fn added_time_block(
    before: &Model,
    client: ClientId,
    id: TimeBlockId,
    after: &Model,
    cmds: Seq<Command<Msg>>,
) -> bool {
    &&& after.keeps_all_but_tree(before)
    &&& match before.tree() {
        Some(tree) => if tree.contains_key(client) {
            let duration = tree[client].next_block_duration();
            &&& after.tree() == Some(
                with_time_block(tree, client, id, fresh_time_block(duration)),
            )
            &&& sends_and_then(
                cmds,
                |m: Mutation| m.adds_time_block(id, client, duration),
                Msg::FocusTimeBlockName(client, id),
            )
        } else {
            after.tree() == Some(tree) && cmds.len() == 0
        },
        None => cmds.len() == 0,
    }
}

/// What attaching an invoice under the fresh identifier `id` does: the time
/// block gets a new invoice and a mutation to add it is sent. Without the
/// time block nothing happens.
pub open spec fn attached_invoice(
    before: &Model,
    client: ClientId,
    block: TimeBlockId,
    id: Id,
    after: &Model,
    cmds: Seq<Command<Msg>>,
) -> bool {
    &&& after.keeps_all_but_tree(before)
    &&& match before.tree() {
        Some(tree) => match time_block_at(tree, client, block) {
            Some(b) => {
                &&& after.tree() == Some(
                    with_time_block(
                        tree,
                        client,
                        block,
                        TimeBlockView { invoice: Some(fresh_invoice(id)), ..b },
                    ),
                )
                &&& sends_one(cmds, |m: Mutation| m.adds_invoice(id, block))
            },
            None => after.tree() == Some(tree) && cmds.len() == 0,
        },
        None => cmds.len() == 0,
    }
}

/// What a change of the time block `block` to `changed` does to the tree.
pub open spec fn changes_block(
    before: &Model,
    client: ClientId,
    block: TimeBlockId,
    changed: spec_fn(TimeBlockView) -> TimeBlockView,
    after: &Model,
) -> bool {
    &&& after.keeps_all_but_tree(before)
    &&& match before.tree() {
        Some(tree) => match time_block_at(tree, client, block) {
            Some(b) => after.tree() == Some(with_time_block(tree, client, block, changed(b))),
            None => after.tree() == Some(tree),
        },
        None => true,
    }
}

/// The time block `block` of the page, if the page has it.
pub open spec fn block_of(model: &Model, client: ClientId, block: TimeBlockId) -> Option<
    TimeBlockView,
> {
    match model.tree() {
        Some(tree) => time_block_at(tree, client, block),
        None => None,
    }
}

/// What handling `msg` does to the page and asks of its surroundings.
pub open spec fn handled(before: &Model, msg: Msg, after: &Model, cmds: Seq<Command<Msg>>) -> bool {
    match msg {
        Msg::ClientsFetched(Ok(tree)) => {
            &&& after.clients == crate::remote_data::RemoteData::Loaded(tree)
            &&& after.errors@ == before.errors@
            &&& after.changes_status == before.changes_status
            &&& cmds.len() == 0
        },
        Msg::ClientsFetched(Err(error)) => after.adds_error(before, error) && cmds.len() == 0,
        Msg::ChangesSaved(Some(error)) => after.adds_error(before, error) && cmds.len() == 0,
        Msg::ChangesSaved(None) => after.same_as(before) && cmds.len() == 0,
        Msg::ClearErrors => {
            &&& after.errors@.len() == 0
            &&& after.changes_status == before.changes_status
            &&& after.clients == before.clients
            &&& cmds.len() == 0
        },
        Msg::AddTimeBlock(client) => exists|id: TimeBlockId|
            added_time_block(before, client, id, after, cmds),
        Msg::DeleteTimeBlock(client, block) => {
            &&& after.same_as(before)
            &&& match block_of(before, client, block) {
                Some(b) => asks(
                    cmds,
                    delete_time_block_question(b.name),
                    Msg::DeleteTimeBlockConfirmed(client, block),
                ),
                None => cmds.len() == 0,
            }
        },
        Msg::DeleteTimeBlockConfirmed(client, block) => {
            &&& after.keeps_all_but_tree(before)
            &&& match before.tree() {
                Some(tree) => match time_block_at(tree, client, block) {
                    Some(_) => after.tree() == Some(without_time_block(tree, client, block))
                        && sends_one(cmds, |m: Mutation| m.deletes_time_block(block)),
                    None => after.tree() == Some(tree) && cmds.len() == 0,
                },
                None => cmds.len() == 0,
            }
        },
        Msg::SetTimeBlockStatus(client, block, status) => {
            &&& changes_block(
                before,
                client,
                block,
                |b: TimeBlockView| TimeBlockView { status, ..b },
                after,
            )
            &&& match block_of(before, client, block) {
                Some(_) => sends_one(cmds, |m: Mutation| m.sets_time_block_status(block, status)),
                None => cmds.len() == 0,
            }
        },
        Msg::FocusTimeBlockName(client, block) => {
            &&& after.same_as(before)
            &&& match block_of(before, client, block) {
                Some(_) => focuses(cmds, NameField::TimeBlock(client, block)),
                None => cmds.len() == 0,
            }
        },
        Msg::TimeBlockNameChanged(client, block, name) => {
            &&& changes_block(
                before,
                client,
                block,
                |b: TimeBlockView| TimeBlockView { name: name@, ..b },
                after,
            )
            &&& cmds.len() == 0
        },
        Msg::SaveTimeBlockName(client, block) => {
            &&& after.same_as(before)
            &&& match block_of(before, client, block) {
                Some(b) => sends_one(cmds, |m: Mutation| m.renames_time_block(block, b.name)),
                None => cmds.len() == 0,
            }
        },
        Msg::TimeBlockDurationChanged(client, block, text) => {
            &&& changes_block(
                before,
                client,
                block,
                |b: TimeBlockView| TimeBlockView { duration_change: Some(text@), ..b },
                after,
            )
            &&& cmds.len() == 0
        },
        Msg::SaveTimeBlockDuration(client, block) => {
            &&& changes_block(
                before,
                client,
                block,
                |b: TimeBlockView| TimeBlockView { duration_change: None, ..b },
                after,
            )
            &&& match block_of(before, client, block) {
                Some(b) => match b.duration_change {
                    Some(text) => reads_hours(cmds, client, block, text),
                    None => cmds.len() == 0,
                },
                None => cmds.len() == 0,
            }
        },
        Msg::TimeBlockDurationRead(client, block, Some(seconds)) => {
            &&& changes_block(
                before,
                client,
                block,
                |b: TimeBlockView|
                    TimeBlockView {
                        duration: Duration { nanos: (seconds * 1_000_000_000) as i128 },
                        ..b
                    },
                after,
            )
            &&& match block_of(before, client, block) {
                Some(_) => sends_one(
                    cmds,
                    |m: Mutation| m.sets_time_block_duration(block, seconds as i32),
                ),
                None => cmds.len() == 0,
            }
        },
        Msg::TimeBlockDurationRead(client, block, None) => after.same_as(before) && cmds.len()
            == 0,
        Msg::AttachInvoice(client, block) => exists|id: Id|
            attached_invoice(before, client, block, id, after, cmds),
        Msg::DeleteInvoice(client, block) => {
            &&& after.same_as(before)
            &&& match block_of(before, client, block) {
                Some(b) => asks(
                    cmds,
                    delete_invoice_question(b.name),
                    Msg::DeleteInvoiceConfirmed(client, block),
                ),
                None => cmds.len() == 0,
            }
        },
        Msg::DeleteInvoiceConfirmed(client, block) => {
            &&& changes_block(
                before,
                client,
                block,
                |b: TimeBlockView| TimeBlockView { invoice: None, ..b },
                after,
            )
            &&& match block_of(before, client, block) {
                Some(b) => match b.invoice {
                    Some(invoice) => sends_one(cmds, |m: Mutation| m.deletes_invoice(invoice.id)),
                    None => cmds.len() == 0,
                },
                None => cmds.len() == 0,
            }
        },
        Msg::InvoiceCustomIdChanged(client, block, custom_id) => {
            &&& changes_block(
                before,
                client,
                block,
                |b: TimeBlockView|
                    match b.invoice {
                        Some(i) => TimeBlockView {
                            invoice: Some(InvoiceView { custom_id: Some(custom_id@), ..i }),
                            ..b
                        },
                        None => b,
                    },
                after,
            )
            &&& cmds.len() == 0
        },
        Msg::SaveInvoiceCustomId(client, block) => {
            &&& after.same_as(before)
            &&& match block_of(before, client, block) {
                Some(b) => match b.invoice {
                    Some(invoice) => sends_one(
                        cmds,
                        |m: Mutation|
                            m.sets_invoice_custom_id(invoice.id, text_or_empty(invoice.custom_id)),
                    ),
                    None => cmds.len() == 0,
                },
                None => cmds.len() == 0,
            }
        },
        Msg::InvoiceUrlChanged(client, block, url) => {
            &&& changes_block(
                before,
                client,
                block,
                |b: TimeBlockView|
                    match b.invoice {
                        Some(i) => TimeBlockView {
                            invoice: Some(InvoiceView { url: Some(url@), ..i }),
                            ..b
                        },
                        None => b,
                    },
                after,
            )
            &&& cmds.len() == 0
        },
        Msg::SaveInvoiceUrl(client, block) => {
            &&& after.same_as(before)
            &&& match block_of(before, client, block) {
                Some(b) => match b.invoice {
                    Some(invoice) => sends_one(
                        cmds,
                        |m: Mutation| m.sets_invoice_url(invoice.id, text_or_empty(invoice.url)),
                    ),
                    None => cmds.len() == 0,
                },
                None => cmds.len() == 0,
            }
        },
    }
}

/// The state of the page as it opens, and the command to fetch its clients.
pub fn init() -> (opened: (Model, Vec<Command<Msg>>))
    ensures
        opened.0.clients == crate::remote_data::RemoteData::<Tree>::Loading,
        opened.0.errors@.len() == 0,
        opened.0.changes_status == ChangesStatus::NoChanges,
        opened.1@.len() == 1,
        opened.1@[0] == Command::<Msg>::FetchClients,
{
    let mut cmds = Vec::new();
    cmds.push(Command::FetchClients);
    (Model::new(), cmds)
}

/// A copy of a text that may be missing; the empty text if it is missing.
fn clone_or_empty(text: &Option<String>) -> (copy: String)
    ensures
        copy@ == text_or_empty(crate::entity::text_view(*text)),
{
    match text {
        Some(t) => t.clone(),
        None => String::new(),
    }
}

/// Adds a time block to `client` under the fresh identifier `id`.
pub fn add_time_block(model: &mut Model, client: ClientId, id: TimeBlockId) -> (cmds: Vec<
    Command<Msg>,
>)
    ensures
        added_time_block(old(model), client, id, final(model), cmds@),
{
    let mut cmds = Vec::new();
    match model.clients.loaded_mut() {
        Some(tree) => {
            let found = match get_client(tree, client) {
                Some(c) => Some(c.next_block_duration()),
                None => None,
            };
            match found {
                Some(duration) => {
                    put_time_block(tree, client, id, TimeBlock::new(duration));
                    cmds.push(Command::Send(Mutation::add_time_block(id, client, duration)));
                    cmds.push(Command::AfterNextRender(Msg::FocusTimeBlockName(client, id)));
                },
                None => {},
            }
        },
        None => {},
    }
    cmds
}

/// Attaches an invoice to a time block under the fresh identifier `id`.
pub fn attach_invoice(model: &mut Model, client: ClientId, block: TimeBlockId, id: Id) -> (cmds:
    Vec<Command<Msg>>)
    ensures
        attached_invoice(old(model), client, block, id, final(model), cmds@),
{
    let mut cmds = Vec::new();
    match model.clients.loaded_mut() {
        Some(tree) => {
            match take_time_block(tree, client, block) {
                Some(mut b) => {
                    b.attach_invoice(id);
                    put_time_block(tree, client, block, b);
                    cmds.push(Command::Send(Mutation::add_invoice(id, block)));
                    proof {
                        lemma_with_time_block_after_without(
                            old(model).tree()->0,
                            client,
                            block,
                            b@,
                        );
                    }
                },
                None => {
                    proof {
                        lemma_without_absent_time_block(old(model).tree()->0, client, block);
                    }
                },
            }
        },
        None => {},
    }
    cmds
}

/// Handles a message: changes the page at once and says what to ask of
/// the surroundings.
pub fn update(msg: Msg, model: &mut Model) -> (cmds: Vec<Command<Msg>>)
    ensures
        handled(old(model), msg, final(model), cmds@),
{
    let mut cmds = Vec::new();
    match msg {
        Msg::ClientsFetched(outcome) => {
            model.clients_fetched(outcome);
        },
        Msg::ChangesSaved(failure) => {
            model.changes_saved(failure);
        },
        Msg::ClearErrors => {
            model.clear_errors();
        },
        Msg::AddTimeBlock(client) => {
            let id = new_id();
            cmds = add_time_block(model, client, id);
        },
        Msg::DeleteTimeBlock(client, block) => {
            match model.clients.loaded() {
                Some(tree) => match get_time_block(tree, client, block) {
                    Some(b) => {
                        cmds.push(
                            Command::Confirm(
                                question("Time Block \"", &b.name, "\" will be deleted."),
                                Msg::DeleteTimeBlockConfirmed(client, block),
                            ),
                        );
                    },
                    None => {},
                },
                None => {},
            }
        },
        Msg::DeleteTimeBlockConfirmed(client, block) => {
            match model.clients.loaded_mut() {
                Some(tree) => {
                    if take_time_block(tree, client, block).is_some() {
                        cmds.push(Command::Send(Mutation::delete_time_block(block)));
                    } else {
                        proof {
                            lemma_without_absent_time_block(old(model).tree()->0, client, block);
                        }
                    }
                },
                None => {},
            }
        },
        Msg::SetTimeBlockStatus(client, block, status) => {
            match model.clients.loaded_mut() {
                Some(tree) => {
                    match take_time_block(tree, client, block) {
                        Some(mut b) => {
                            b.status = status;
                            put_time_block(tree, client, block, b);
                            cmds.push(
                                Command::Send(Mutation::set_time_block_status(block, status)),
                            );
                            proof {
                                lemma_with_time_block_after_without(
                                    old(model).tree()->0,
                                    client,
                                    block,
                                    b@,
                                );
                            }
                        },
                        None => {
                            proof {
                                lemma_without_absent_time_block(
                                    old(model).tree()->0,
                                    client,
                                    block,
                                );
                            }
                        },
                    }
                },
                None => {},
            }
        },
        Msg::FocusTimeBlockName(client, block) => {
            match model.clients.loaded() {
                Some(tree) => {
                    if get_time_block(tree, client, block).is_some() {
                        cmds.push(Command::Focus(NameField::TimeBlock(client, block)));
                    }
                },
                None => {},
            }
        },
        Msg::TimeBlockNameChanged(client, block, name) => {
            match model.clients.loaded_mut() {
                Some(tree) => {
                    match take_time_block(tree, client, block) {
                        Some(mut b) => {
                            b.name = name;
                            put_time_block(tree, client, block, b);
                            proof {
                                lemma_with_time_block_after_without(
                                    old(model).tree()->0,
                                    client,
                                    block,
                                    b@,
                                );
                            }
                        },
                        None => {
                            proof {
                                lemma_without_absent_time_block(
                                    old(model).tree()->0,
                                    client,
                                    block,
                                );
                            }
                        },
                    }
                },
                None => {},
            }
        },
        Msg::SaveTimeBlockName(client, block) => {
            match model.clients.loaded() {
                Some(tree) => match get_time_block(tree, client, block) {
                    Some(b) => {
                        cmds.push(Command::Send(Mutation::rename_time_block(block, &b.name)));
                    },
                    None => {},
                },
                None => {},
            }
        },
        Msg::TimeBlockDurationChanged(client, block, text) => {
            match model.clients.loaded_mut() {
                Some(tree) => {
                    match take_time_block(tree, client, block) {
                        Some(mut b) => {
                            b.stage_duration(text);
                            put_time_block(tree, client, block, b);
                            proof {
                                lemma_with_time_block_after_without(
                                    old(model).tree()->0,
                                    client,
                                    block,
                                    b@,
                                );
                            }
                        },
                        None => {
                            proof {
                                lemma_without_absent_time_block(
                                    old(model).tree()->0,
                                    client,
                                    block,
                                );
                            }
                        },
                    }
                },
                None => {},
            }
        },
        Msg::SaveTimeBlockDuration(client, block) => {
            match model.clients.loaded_mut() {
                Some(tree) => {
                    match take_time_block(tree, client, block) {
                        Some(mut b) => {
                            match b.take_staged_duration() {
                                Some(text) => {
                                    cmds.push(Command::ReadHours(client, block, text));
                                },
                                None => {},
                            }
                            put_time_block(tree, client, block, b);
                            proof {
                                lemma_with_time_block_after_without(
                                    old(model).tree()->0,
                                    client,
                                    block,
                                    b@,
                                );
                            }
                        },
                        None => {
                            proof {
                                lemma_without_absent_time_block(
                                    old(model).tree()->0,
                                    client,
                                    block,
                                );
                            }
                        },
                    }
                },
                None => {},
            }
        },
        Msg::TimeBlockDurationRead(client, block, read) => {
            match read {
                Some(seconds) => {
                    match model.clients.loaded_mut() {
                        Some(tree) => {
                            match take_time_block(tree, client, block) {
                                Some(mut b) => {
                                    b.set_duration_seconds(seconds);
                                    put_time_block(tree, client, block, b);
                                    cmds.push(
                                        Command::Send(
                                            Mutation::set_time_block_duration(
                                                block,
                                                #[verifier::truncate]
                                                (seconds as i32),
                                            ),
                                        ),
                                    );
                                    proof {
                                        lemma_with_time_block_after_without(
                                            old(model).tree()->0,
                                            client,
                                            block,
                                            b@,
                                        );
                                    }
                                },
                                None => {
                                    proof {
                                        lemma_without_absent_time_block(
                                            old(model).tree()->0,
                                            client,
                                            block,
                                        );
                                    }
                                },
                            }
                        },
                        None => {},
                    }
                },
                None => {},
            }
        },
        Msg::AttachInvoice(client, block) => {
            let id = new_id();
            cmds = attach_invoice(model, client, block, id);
        },
        Msg::DeleteInvoice(client, block) => {
            match model.clients.loaded() {
                Some(tree) => match get_time_block(tree, client, block) {
                    Some(b) => {
                        cmds.push(
                            Command::Confirm(
                                question(
                                    "Invoice attached to Time Block \"",
                                    &b.name,
                                    "\" will be deleted.",
                                ),
                                Msg::DeleteInvoiceConfirmed(client, block),
                            ),
                        );
                    },
                    None => {},
                },
                None => {},
            }
        },
        Msg::DeleteInvoiceConfirmed(client, block) => {
            match model.clients.loaded_mut() {
                Some(tree) => {
                    match take_time_block(tree, client, block) {
                        Some(mut b) => {
                            match b.detach_invoice() {
                                Some(id) => {
                                    cmds.push(Command::Send(Mutation::delete_invoice(id)));
                                },
                                None => {},
                            }
                            put_time_block(tree, client, block, b);
                            proof {
                                lemma_with_time_block_after_without(
                                    old(model).tree()->0,
                                    client,
                                    block,
                                    b@,
                                );
                            }
                        },
                        None => {
                            proof {
                                lemma_without_absent_time_block(
                                    old(model).tree()->0,
                                    client,
                                    block,
                                );
                            }
                        },
                    }
                },
                None => {},
            }
        },
        Msg::InvoiceCustomIdChanged(client, block, custom_id) => {
            match model.clients.loaded_mut() {
                Some(tree) => {
                    match take_time_block(tree, client, block) {
                        Some(mut b) => {
                            let _ = b.set_invoice_custom_id(custom_id);
                            put_time_block(tree, client, block, b);
                            proof {
                                lemma_with_time_block_after_without(
                                    old(model).tree()->0,
                                    client,
                                    block,
                                    b@,
                                );
                            }
                        },
                        None => {
                            proof {
                                lemma_without_absent_time_block(
                                    old(model).tree()->0,
                                    client,
                                    block,
                                );
                            }
                        },
                    }
                },
                None => {},
            }
        },
        Msg::SaveInvoiceCustomId(client, block) => {
            match model.clients.loaded() {
                Some(tree) => match get_time_block(tree, client, block) {
                    Some(b) => match &b.invoice {
                        Some(invoice) => {
                            let text = clone_or_empty(&invoice.custom_id);
                            cmds.push(
                                Command::Send(Mutation::set_invoice_custom_id(invoice.id, &text)),
                            );
                        },
                        None => {},
                    },
                    None => {},
                },
                None => {},
            }
        },
        Msg::InvoiceUrlChanged(client, block, url) => {
            match model.clients.loaded_mut() {
                Some(tree) => {
                    match take_time_block(tree, client, block) {
                        Some(mut b) => {
                            let _ = b.set_invoice_url(url);
                            put_time_block(tree, client, block, b);
                            proof {
                                lemma_with_time_block_after_without(
                                    old(model).tree()->0,
                                    client,
                                    block,
                                    b@,
                                );
                            }
                        },
                        None => {
                            proof {
                                lemma_without_absent_time_block(
                                    old(model).tree()->0,
                                    client,
                                    block,
                                );
                            }
                        },
                    }
                },
                None => {},
            }
        },
        Msg::SaveInvoiceUrl(client, block) => {
            match model.clients.loaded() {
                Some(tree) => match get_time_block(tree, client, block) {
                    Some(b) => match &b.invoice {
                        Some(invoice) => {
                            let text = clone_or_empty(&invoice.url);
                            cmds.push(Command::Send(Mutation::set_invoice_url(invoice.id, &text)));
                        },
                        None => {},
                    },
                    None => {},
                },
                None => {},
            }
        },
    }
    cmds
}

/// What happens to time blocks and invoices leaves the projects alone: if at
/// most one entry runs in every project before a message is handled, the
/// same holds after, unless the message brings fetched clients.
pub proof fn lemma_update_keeps_one_running(
    before: &Model,
    msg: Msg,
    after: &Model,
    cmds: Seq<Command<Msg>>,
)
    requires
        handled(before, msg, after, cmds),
        !(msg matches Msg::ClientsFetched(Ok(_))),
        before.tree() matches Some(tree) ==> one_runs_at_most(tree),
    ensures
        after.tree() matches Some(tree) ==> one_runs_at_most(tree),
{
    if before.tree() is Some {
        lemma_same_projects_keep_one_running(before.tree()->0, after.tree()->0);
    }
}

} // verus!
