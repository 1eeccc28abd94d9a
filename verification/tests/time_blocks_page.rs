use std::collections::BTreeMap;
use time_tracker::command::{Command, Mutation, NameField};
use time_tracker::entity::{
    Client, Invoice, Project, TimeBlock, TimeBlockStatus, TimeEntry, Tree,
};
use time_tracker::ident::id_to_string;
use time_tracker::page::model::Model;
use time_tracker::page::time_blocks::{add_time_block, attach_invoice, init, update, Msg};
use time_tracker::remote_data::RemoteData;
use time_tracker::time::{Duration, Timestamp};
use time_tracker::time_block::BlockedTime;

fn loaded(tree: Tree) -> Model {
    let (mut model, _) = init();
    update(Msg::ClientsFetched(Ok(tree)), &mut model);
    model
}

fn tree_of(model: &Model) -> &Tree {
    model.clients.loaded().unwrap()
}

fn sample() -> Tree {
    let mut block = TimeBlock::new(Duration::from_hours(8));
    block.name = "March".to_owned();
    let mut acme = Client::new("Acme".to_owned());
    acme.time_blocks.insert(20, block);
    let mut tree = BTreeMap::new();
    tree.insert(10, acme);
    tree
}

fn block(model: &Model) -> &TimeBlock {
    &tree_of(model)[&10].time_blocks[&20]
}

#[test]
fn blocks_page_opens_fetching() {
    let (model, cmds) = init();
    assert!(matches!(model.clients, RemoteData::Loading));
    assert!(matches!(cmds.as_slice(), [Command::FetchClients]));
}

#[test]
fn first_time_block_gets_twenty_hours() {
    let mut tree = BTreeMap::new();
    tree.insert(10, Client::new("Acme".to_owned()));
    let mut model = loaded(tree);
    let cmds = add_time_block(&mut model, 10, 21);
    let new = &tree_of(&model)[&10].time_blocks[&21];
    assert_eq!(new.duration, Duration { nanos: 72_000_000_000_000 });
    assert_eq!(new.duration.num_seconds(), 72_000);
    assert_eq!(new.name, "");
    assert_eq!(new.status, TimeBlockStatus::Unpaid);
    assert!(new.duration_change.is_none() && new.invoice.is_none());
    assert!(matches!(&cmds[0], Command::Send(Mutation::AddTimeBlock(args))
        if args.id == id_to_string(21) && args.client == id_to_string(10)
            && args.duration == Duration::from_hours(20)));
    assert!(matches!(&cmds[1], Command::AfterNextRender(Msg::FocusTimeBlockName(10, 21))));
    assert_eq!(cmds.len(), 2);
}

#[test]
fn next_time_block_is_as_long_as_the_newest() {
    let mut model = loaded(sample());
    add_time_block(&mut model, 10, 5);
    assert_eq!(tree_of(&model)[&10].time_blocks[&5].duration, Duration::from_hours(8));
    update(Msg::TimeBlockDurationRead(10, 20, Some(3600)), &mut model);
    add_time_block(&mut model, 10, 25);
    assert_eq!(tree_of(&model)[&10].time_blocks[&25].duration, Duration::from_hours(1));
    assert_eq!(tree_of(&model)[&10].time_blocks.len(), 3);
    assert!(add_time_block(&mut model, 11, 26).is_empty());
    let cmds = update(Msg::AddTimeBlock(10), &mut model);
    assert_eq!(cmds.len(), 2);
    assert_eq!(tree_of(&model)[&10].time_blocks.len(), 4);
}

#[test]
fn status_is_set_and_sent() {
    let mut model = loaded(sample());
    let cmds = update(Msg::SetTimeBlockStatus(10, 20, TimeBlockStatus::Paid), &mut model);
    assert_eq!(block(&model).status, TimeBlockStatus::Paid);
    assert_eq!(block(&model).name, "March");
    assert!(matches!(cmds.as_slice(), [Command::Send(Mutation::SetTimeBlockStatus(args))]
        if args.id == id_to_string(20) && args.status == TimeBlockStatus::Paid));
    assert!(update(Msg::SetTimeBlockStatus(10, 21, TimeBlockStatus::Paid), &mut model).is_empty());
}

#[test]
fn block_name_changes_at_once_and_is_sent_on_save() {
    let mut model = loaded(sample());
    assert!(update(Msg::TimeBlockNameChanged(10, 20, "April".to_owned()), &mut model).is_empty());
    assert_eq!(block(&model).name, "April");
    assert!(matches!(update(Msg::SaveTimeBlockName(10, 20), &mut model).as_slice(),
        [Command::Send(Mutation::RenameTimeBlock(args))]
        if args.id == id_to_string(20) && args.name == "April"));
    assert!(update(Msg::SaveTimeBlockName(10, 21), &mut model).is_empty());
    assert!(matches!(update(Msg::FocusTimeBlockName(10, 20), &mut model).as_slice(),
        [Command::Focus(NameField::TimeBlock(10, 20))]));
    assert!(update(Msg::FocusTimeBlockName(10, 21), &mut model).is_empty());
}

#[test]
fn staged_duration_is_handed_out_to_be_read() {
    let mut model = loaded(sample());
    assert!(update(Msg::TimeBlockDurationChanged(10, 20, "1".to_owned()), &mut model).is_empty());
    assert!(update(Msg::TimeBlockDurationChanged(10, 20, "1.5".to_owned()), &mut model).is_empty());
    assert_eq!(block(&model).duration_change.as_deref(), Some("1.5"));
    assert_eq!(block(&model).duration, Duration::from_hours(8));
    let cmds = update(Msg::SaveTimeBlockDuration(10, 20), &mut model);
    assert!(matches!(cmds.as_slice(), [Command::ReadHours(10, 20, text)] if text == "1.5"));
    assert!(block(&model).duration_change.is_none());
    assert_eq!(block(&model).duration, Duration::from_hours(8));
    assert!(update(Msg::SaveTimeBlockDuration(10, 20), &mut model).is_empty());
}

#[test]
fn read_duration_is_stored_and_sent() {
    let mut model = loaded(sample());
    let cmds = update(Msg::TimeBlockDurationRead(10, 20, Some(5400)), &mut model);
    assert_eq!(block(&model).duration, Duration::from_seconds(5400));
    assert!(matches!(cmds.as_slice(), [Command::Send(Mutation::SetTimeBlockDuration(args))]
        if args.id == id_to_string(20) && args.duration == 5400));
    assert!(update(Msg::TimeBlockDurationRead(10, 20, None), &mut model).is_empty());
    assert_eq!(block(&model).duration, Duration::from_seconds(5400));
    assert!(update(Msg::TimeBlockDurationRead(10, 21, Some(1)), &mut model).is_empty());
}

#[test]
fn block_is_deleted_after_the_question() {
    let mut model = loaded(sample());
    assert!(matches!(update(Msg::DeleteTimeBlock(10, 20), &mut model).as_slice(),
        [Command::Confirm(text, Msg::DeleteTimeBlockConfirmed(10, 20))]
        if text == "Time Block \"March\" will be deleted."));
    assert_eq!(tree_of(&model)[&10].time_blocks.len(), 1);
    assert!(matches!(update(Msg::DeleteTimeBlockConfirmed(10, 20), &mut model).as_slice(),
        [Command::Send(Mutation::DeleteTimeBlock(args))] if args.id == id_to_string(20)));
    assert!(tree_of(&model)[&10].time_blocks.is_empty());
    assert!(update(Msg::DeleteTimeBlock(10, 20), &mut model).is_empty());
    assert!(update(Msg::DeleteTimeBlockConfirmed(10, 20), &mut model).is_empty());
}

#[test]
fn invoice_is_attached_edited_and_deleted() {
    let mut model = loaded(sample());
    assert!(update(Msg::InvoiceUrlChanged(10, 20, "x".to_owned()), &mut model).is_empty());
    assert!(block(&model).invoice.is_none());
    assert!(update(Msg::SaveInvoiceUrl(10, 20), &mut model).is_empty());
    let cmds = attach_invoice(&mut model, 10, 20, 30);
    assert!(matches!(cmds.as_slice(), [Command::Send(Mutation::AddInvoice(args))]
        if args.id == id_to_string(30) && args.time_block == id_to_string(20)));
    {
        let invoice = block(&model).invoice.as_ref().unwrap();
        assert_eq!(invoice.id, 30);
        assert_eq!(invoice.custom_id.as_deref(), Some(""));
        assert_eq!(invoice.url.as_deref(), Some(""));
    }
    assert!(update(Msg::InvoiceCustomIdChanged(10, 20, "2020-7".to_owned()), &mut model).is_empty());
    assert!(update(Msg::InvoiceUrlChanged(10, 20, "https://x.test/7".to_owned()), &mut model).is_empty());
    {
        let invoice = block(&model).invoice.as_ref().unwrap();
        assert_eq!(invoice.custom_id.as_deref(), Some("2020-7"));
        assert_eq!(invoice.url.as_deref(), Some("https://x.test/7"));
    }
    assert!(matches!(update(Msg::SaveInvoiceCustomId(10, 20), &mut model).as_slice(),
        [Command::Send(Mutation::SetInvoiceCustomId(args))]
        if args.id == id_to_string(30) && args.custom_id == "2020-7"));
    assert!(matches!(update(Msg::SaveInvoiceUrl(10, 20), &mut model).as_slice(),
        [Command::Send(Mutation::SetInvoiceUrl(args))]
        if args.id == id_to_string(30) && args.url == "https://x.test/7"));
    assert!(matches!(update(Msg::DeleteInvoice(10, 20), &mut model).as_slice(),
        [Command::Confirm(text, Msg::DeleteInvoiceConfirmed(10, 20))]
        if text == "Invoice attached to Time Block \"March\" will be deleted."));
    assert!(block(&model).invoice.is_some());
    assert!(matches!(update(Msg::DeleteInvoiceConfirmed(10, 20), &mut model).as_slice(),
        [Command::Send(Mutation::DeleteInvoice(args))] if args.id == id_to_string(30)));
    assert!(block(&model).invoice.is_none());
    assert!(update(Msg::DeleteInvoiceConfirmed(10, 20), &mut model).is_empty());
    assert!(update(Msg::AttachInvoice(10, 21), &mut model).is_empty());
    let cmds = update(Msg::AttachInvoice(10, 20), &mut model);
    assert_eq!(cmds.len(), 1);
    assert!(block(&model).invoice.is_some());
}

#[test]
fn missing_invoice_texts_are_sent_empty() {
    let mut tree = sample();
    tree.get_mut(&10).unwrap().time_blocks.get_mut(&20).unwrap().invoice =
        Some(Invoice { id: 30, custom_id: None, url: None });
    let mut model = loaded(tree);
    assert!(matches!(update(Msg::SaveInvoiceCustomId(10, 20), &mut model).as_slice(),
        [Command::Send(Mutation::SetInvoiceCustomId(args))] if args.custom_id.is_empty()));
    assert!(matches!(update(Msg::SaveInvoiceUrl(10, 20), &mut model).as_slice(),
        [Command::Send(Mutation::SetInvoiceUrl(args))] if args.url.is_empty()));
}

#[test]
fn blocked_time_is_summed_by_status() {
    let mut client = Client::new("Acme".to_owned());
    assert_eq!(client.blocked_time(), Some(BlockedTime { blocked: 0, unpaid: 0, paid: 0 }));
    let mut paid = TimeBlock::new(Duration::from_hours(2));
    paid.status = TimeBlockStatus::Paid;
    let mut free = TimeBlock::new(Duration::from_seconds(90 * 60 + 59));
    free.status = TimeBlockStatus::NonBillable;
    client.time_blocks.insert(1, TimeBlock::new(Duration::from_hours(20)));
    client.time_blocks.insert(2, paid);
    client.time_blocks.insert(3, free);
    assert_eq!(
        client.blocked_time(),
        Some(BlockedTime { blocked: 1200 + 120 + 90, unpaid: 1200, paid: 120 })
    );
}

#[test]
fn minutes_to_block_are_tracked_less_blocked() {
    let at = |secs: i64| Timestamp { secs, nanos: 0, offset: 0 };
    let mut project = Project::new("p".to_owned());
    project.time_entries.insert(
        1,
        TimeEntry { name: String::new(), started: at(0), stopped: Some(at(3 * 3600)), change: None },
    );
    let mut client = Client::new("Acme".to_owned());
    client.projects.insert(1, project);
    assert_eq!(client.minutes_to_block(&at(0)), Some(180));
    client.time_blocks.insert(1, TimeBlock::new(Duration::from_hours(2)));
    assert_eq!(client.minutes_to_block(&at(0)), Some(60));
    client.time_blocks.insert(2, TimeBlock::new(Duration::from_hours(2)));
    assert_eq!(client.minutes_to_block(&at(0)), Some(-60));
}
