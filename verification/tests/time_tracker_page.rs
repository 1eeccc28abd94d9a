use std::collections::BTreeMap;
use time_tracker::command::{Command, Mutation};
use time_tracker::entity::{Client, Project, TimeEntry, TimeEntryChange, Tree};
use time_tracker::ident::id_to_string;
use time_tracker::page::clients_and_projects;
use time_tracker::page::model::Model;
use time_tracker::page::time_tracker::{init, save_change, stage, start, stop, update, Msg};
use time_tracker::remote_data::RemoteData;
use time_tracker::time::{Duration, Timestamp};

fn at(secs: i64) -> Timestamp {
    Timestamp { secs, nanos: 0, offset: 0 }
}

fn loaded(tree: Tree) -> Model {
    let (mut model, _) = init();
    update(Msg::ClientsFetched(Ok(tree)), &mut model);
    model
}

fn tree_of(model: &Model) -> &Tree {
    model.clients.loaded().unwrap()
}

fn sample() -> Tree {
    let mut website = Project::new("Website".to_owned());
    website.time_entries.insert(
        30,
        TimeEntry {
            name: "design".to_owned(),
            started: at(1_579_103_619),
            stopped: Some(at(1_579_103_619 + 600)),
            change: None,
        },
    );
    let mut acme = Client::new("Acme".to_owned());
    acme.projects.insert(20, website);
    let mut tree = BTreeMap::new();
    tree.insert(10, acme);
    tree
}

fn entry(model: &Model, id: u128) -> &TimeEntry {
    &tree_of(model)[&10].projects[&20].time_entries[&id]
}

fn running(model: &Model) -> usize {
    tree_of(model)[&10].projects[&20].time_entries.values().filter(|e| e.stopped.is_none()).count()
}

#[test]
fn tracker_opens_fetching_and_ticking() {
    let (model, cmds) = init();
    assert!(matches!(model.clients, RemoteData::Loading));
    assert!(matches!(cmds.as_slice(), [Command::FetchClients, Command::StartTicking]));
}

#[test]
fn tick_changes_nothing() {
    let mut model = loaded(sample());
    assert!(update(Msg::OnSecondTick, &mut model).is_empty());
    assert_eq!(tree_of(&model)[&10].projects[&20].time_entries.len(), 1);
}

#[test]
fn start_adds_a_running_entry_and_sends_it() {
    let mut model = loaded(sample());
    let cmds = start(&mut model, 10, 20, 40, at(2_000_000_000));
    assert_eq!(running(&model), 1);
    let new = entry(&model, 40);
    assert_eq!(new.name, "design");
    assert_eq!(new.started, at(2_000_000_000));
    assert_eq!(new.stopped, None);
    assert!(matches!(cmds.as_slice(), [Command::Send(Mutation::AddTimeEntry(args))]
        if args.id == id_to_string(40) && args.name == "design"
            && args.project == id_to_string(20) && args.started == at(2_000_000_000)));
}

#[test]
fn second_start_is_ignored() {
    let mut model = loaded(sample());
    start(&mut model, 10, 20, 40, at(2_000_000_000));
    let cmds = start(&mut model, 10, 20, 41, at(2_000_000_001));
    assert!(cmds.is_empty());
    assert_eq!(running(&model), 1);
    assert!(!tree_of(&model)[&10].projects[&20].time_entries.contains_key(&41));
}

#[test]
fn stop_ends_the_running_entry_and_sends_its_times() {
    let mut model = loaded(sample());
    start(&mut model, 10, 20, 40, at(2_000_000_000));
    let cmds = stop(&mut model, 10, 20, at(2_000_000_002));
    assert_eq!(running(&model), 0);
    assert_eq!(entry(&model, 40).stopped, Some(at(2_000_000_002)));
    assert!(matches!(cmds.as_slice(), [Command::Send(Mutation::SetTimeEntryTimes(args))]
        if args.id == id_to_string(40) && args.started == at(2_000_000_000)
            && args.stopped == Some(at(2_000_000_002))));
    assert!(stop(&mut model, 10, 20, at(2_000_000_003)).is_empty());
    assert_eq!(entry(&model, 40).stopped, Some(at(2_000_000_002)));
}

#[test]
fn start_and_stop_without_the_project_do_nothing() {
    let mut model = loaded(sample());
    assert!(start(&mut model, 10, 21, 40, at(5)).is_empty());
    assert!(start(&mut model, 11, 20, 40, at(5)).is_empty());
    assert!(stop(&mut model, 10, 21, at(5)).is_empty());
    assert_eq!(tree_of(&model)[&10].projects.len(), 1);
    assert_eq!(tree_of(&model)[&10].projects[&20].time_entries.len(), 1);
    let (mut waiting, _) = init();
    assert!(start(&mut waiting, 10, 20, 40, at(5)).is_empty());
    assert!(stop(&mut waiting, 10, 20, at(5)).is_empty());
    assert!(matches!(waiting.clients, RemoteData::Loading));
}

#[test]
fn start_and_stop_messages_read_the_clock() {
    let mut model = loaded(sample());
    let cmds = update(Msg::Start(10, 20), &mut model);
    assert_eq!(cmds.len(), 1);
    assert_eq!(running(&model), 1);
    let entries = &tree_of(&model)[&10].projects[&20].time_entries;
    let (id, started) = entries
        .iter()
        .find(|(_, e)| e.stopped.is_none())
        .map(|(id, e)| (*id, e.started))
        .unwrap();
    assert!(started.secs > 1_700_000_000);
    let cmds = update(Msg::Stop(10, 20), &mut model);
    assert_eq!(cmds.len(), 1);
    assert_eq!(running(&model), 0);
    let stopped = entry(&model, id).stopped.unwrap();
    assert!(stopped.since(&started).nanos >= 0);
    assert!(stopped.since(&started).num_seconds() < 60);
}

#[test]
fn entry_name_changes_at_once_and_is_sent_on_save() {
    let mut model = loaded(sample());
    assert!(update(Msg::TimeEntryNameChanged(10, 20, 30, "audit".to_owned()), &mut model).is_empty());
    assert_eq!(entry(&model, 30).name, "audit");
    assert!(matches!(update(Msg::SaveTimeEntryName(10, 20, 30), &mut model).as_slice(),
        [Command::Send(Mutation::RenameTimeEntry(args))]
        if args.id == id_to_string(30) && args.name == "audit"));
    assert!(update(Msg::TimeEntryNameChanged(10, 20, 31, "x".to_owned()), &mut model).is_empty());
    assert!(update(Msg::SaveTimeEntryName(10, 20, 31), &mut model).is_empty());
    assert_eq!(tree_of(&model)[&10].projects[&20].time_entries.len(), 1);
}

#[test]
fn entry_is_deleted_after_the_question() {
    let mut model = loaded(sample());
    assert!(matches!(update(Msg::DeleteTimeEntry(10, 20, 30), &mut model).as_slice(),
        [Command::Confirm(text, Msg::DeleteTimeEntryConfirmed(10, 20, 30))]
        if text == "Time Entry \"design\" will be deleted."));
    assert_eq!(tree_of(&model)[&10].projects[&20].time_entries.len(), 1);
    assert!(matches!(update(Msg::DeleteTimeEntryConfirmed(10, 20, 30), &mut model).as_slice(),
        [Command::Send(Mutation::DeleteTimeEntry(args))] if args.id == id_to_string(30)));
    assert!(tree_of(&model)[&10].projects[&20].time_entries.is_empty());
    assert_eq!(tree_of(&model)[&10].projects[&20].name, "Website");
    assert!(update(Msg::DeleteTimeEntry(10, 20, 30), &mut model).is_empty());
    assert!(update(Msg::DeleteTimeEntryConfirmed(10, 20, 30), &mut model).is_empty());
}

#[test]
fn each_field_message_stages_its_change() {
    let mut model = loaded(sample());
    update(Msg::TimeEntryStartedDateChanged(10, 20, 30, "a".to_owned()), &mut model);
    assert!(matches!(&entry(&model, 30).change, Some(TimeEntryChange::StartedDate(t)) if t == "a"));
    update(Msg::TimeEntryStartedTimeChanged(10, 20, 30, "b".to_owned()), &mut model);
    assert!(matches!(&entry(&model, 30).change, Some(TimeEntryChange::StartedTime(t)) if t == "b"));
    update(Msg::TimeEntryDurationChanged(10, 20, 30, "c".to_owned()), &mut model);
    assert!(matches!(&entry(&model, 30).change, Some(TimeEntryChange::Duration(t)) if t == "c"));
    update(Msg::TimeEntryStoppedDateChanged(10, 20, 30, "d".to_owned()), &mut model);
    assert!(matches!(&entry(&model, 30).change, Some(TimeEntryChange::StoppedDate(t)) if t == "d"));
    let cmds = update(Msg::TimeEntryStoppedTimeChanged(10, 20, 30, "e".to_owned()), &mut model);
    assert!(matches!(&entry(&model, 30).change, Some(TimeEntryChange::StoppedTime(t)) if t == "e"));
    assert!(cmds.is_empty());
    assert_eq!(entry(&model, 30).started, at(1_579_103_619));
    assert!(stage(&mut model, 10, 20, 31, TimeEntryChange::Duration("x".to_owned())).is_empty());
    assert_eq!(tree_of(&model)[&10].projects[&20].time_entries.len(), 1);
}

#[test]
fn invalid_staged_date_is_dropped_on_commit() {
    let mut model = loaded(sample());
    update(Msg::TimeEntryStartedDateChanged(10, 20, 30, "not-a-date".to_owned()), &mut model);
    let cmds = update(Msg::SaveTimeEntryChange(10, 20, 30), &mut model);
    assert!(cmds.is_empty());
    assert_eq!(entry(&model, 30).started, at(1_579_103_619));
    assert_eq!(entry(&model, 30).stopped, Some(at(1_579_103_619 + 600)));
    assert!(entry(&model, 30).change.is_none());
}

#[test]
fn committed_duration_is_sent_with_both_times() {
    let mut model = loaded(sample());
    update(Msg::TimeEntryDurationChanged(10, 20, 30, "-2:15:00".to_owned()), &mut model);
    let cmds = save_change(&mut model, 10, 20, 30);
    let e = entry(&model, 30);
    let stopped = e.stopped.unwrap();
    assert_eq!(stopped.since(&e.started), Duration::from_seconds(-8100));
    assert_eq!(e.started, at(1_579_103_619));
    assert!(matches!(cmds.as_slice(), [Command::Send(Mutation::SetTimeEntryTimes(args))]
        if args.id == id_to_string(30) && args.started == e.started
            && args.stopped == Some(stopped)));
    assert!(save_change(&mut model, 10, 20, 30).is_empty());
    assert!(save_change(&mut model, 10, 20, 31).is_empty());
}

#[test]
fn client_is_added_tracked_and_stopped() {
    let (mut model, _) = clients_and_projects::init();
    clients_and_projects::update(
        clients_and_projects::Msg::ClientsFetched(Ok(BTreeMap::new())),
        &mut model,
    );
    clients_and_projects::add_client(&mut model, 1);
    clients_and_projects::update(
        clients_and_projects::Msg::ClientNameChanged(1, "Acme".to_owned()),
        &mut model,
    );
    {
        let tree = tree_of(&model);
        assert_eq!(tree.len(), 1);
        assert_eq!(tree[&1].name, "Acme");
        assert!(tree[&1].projects.is_empty() && tree[&1].time_blocks.is_empty());
    }
    clients_and_projects::add_project(&mut model, 1, 2);
    clients_and_projects::update(
        clients_and_projects::Msg::ProjectNameChanged(1, 2, "Website".to_owned()),
        &mut model,
    );
    assert_eq!(tree_of(&model)[&1].projects.len(), 1);
    let begin = at(2_000_000_000);
    start(&mut model, 1, 2, 3, begin);
    {
        let entries = &tree_of(&model)[&1].projects[&2].time_entries;
        assert_eq!(entries.len(), 1);
        assert_eq!(entries[&3].stopped, None);
        assert_eq!(entries[&3].started, begin);
    }
    let end = at(2_000_000_002);
    stop(&mut model, 1, 2, end);
    let acme = &tree_of(&model)[&1];
    let entry = &acme.projects[&2].time_entries[&3];
    assert_eq!(entry.stopped, Some(end));
    assert_eq!(entry.elapsed(&at(2_000_000_100)), Duration::from_seconds(2));
    assert_eq!(acme.tracked_time(&at(2_000_000_100)), Some(Duration::from_seconds(2)));
}

#[test]
fn at_most_one_entry_runs_whatever_happens() {
    let mut model = loaded(sample());
    let mut next_id = 100;
    let mut clock = 2_000_000_000;
    let steps = [0, 0, 1, 2, 0, 3, 0, 1, 1, 0, 4, 2, 0, 3, 1, 0, 0, 5, 1, 0];
    for step in steps {
        next_id += 1;
        clock += 7;
        let newest = *tree_of(&model)[&10].projects[&20].time_entries.keys().next_back().unwrap();
        match step {
            0 => {
                start(&mut model, 10, 20, next_id, at(clock));
            }
            1 => {
                stop(&mut model, 10, 20, at(clock));
            }
            2 => {
                stage(&mut model, 10, 20, newest, TimeEntryChange::Duration("0:10:00".to_owned()));
                save_change(&mut model, 10, 20, newest);
            }
            3 => {
                stage(&mut model, 10, 20, newest, TimeEntryChange::StartedTime("07:00:00".to_owned()));
                save_change(&mut model, 10, 20, newest);
            }
            4 => {
                update(Msg::TimeEntryNameChanged(10, 20, newest, "x".to_owned()), &mut model);
            }
            _ => {
                update(Msg::DeleteTimeEntryConfirmed(10, 20, 30), &mut model);
            }
        }
        assert!(running(&model) <= 1);
    }
    assert!(tree_of(&model)[&10].projects[&20].time_entries.len() > 1);
}

#[test]
fn committed_written_duration_sets_the_stop() {
    for seconds in [0i64, 1, -1, 59, 3600, -8100, 86_400 * 365] {
        let mut model = loaded(sample());
        let text = time_tracker::duration_text::format_duration(seconds as i128);
        update(Msg::TimeEntryDurationChanged(10, 20, 30, text), &mut model);
        let cmds = update(Msg::SaveTimeEntryChange(10, 20, 30), &mut model);
        let e = entry(&model, 30);
        assert_eq!(e.started, at(1_579_103_619));
        let stopped = e.stopped.unwrap();
        assert_eq!((stopped.secs, stopped.nanos), (1_579_103_619 + seconds, 0));
        assert!(e.change.is_none());
        assert!(matches!(cmds.as_slice(), [Command::Send(Mutation::SetTimeEntryTimes(args))]
            if args.started == e.started && args.stopped == Some(stopped)));
    }
}

#[test]
fn duration_beyond_the_calendar_is_dropped() {
    let mut model = loaded(sample());
    let text = "2400000000:00:00".to_owned();
    update(Msg::TimeEntryDurationChanged(10, 20, 30, text), &mut model);
    let cmds = update(Msg::SaveTimeEntryChange(10, 20, 30), &mut model);
    assert!(cmds.is_empty());
    assert_eq!(entry(&model, 30).stopped, Some(at(1_579_103_619 + 600)));
    assert!(entry(&model, 30).change.is_none());
}
