use std::collections::BTreeMap;
use time_tracker::entity::{Client, Project, TimeEntry};
use time_tracker::order::{ids_newest_first, newest_id, sorted_ids};
use time_tracker::time::{Duration, Timestamp};

fn at(secs: i64) -> Timestamp {
    Timestamp { secs, nanos: 0, offset: 0 }
}

fn closed(name: &str, from: i64, to: i64) -> TimeEntry {
    TimeEntry { name: name.to_owned(), started: at(from), stopped: Some(at(to)), change: None }
}

fn running_count(project: &Project) -> usize {
    project.time_entries.values().filter(|e| e.stopped.is_none()).count()
}

#[test]
fn start_gives_the_project_one_running_entry() {
    let mut project = Project::new("Website".to_owned());
    assert_eq!(project.active_entry(), None);
    assert!(project.start(7, at(100)));
    assert_eq!(running_count(&project), 1);
    assert_eq!(project.active_entry(), Some(7));
    let entry = &project.time_entries[&7];
    assert_eq!(entry.started, at(100));
    assert_eq!(entry.stopped, None);
    assert_eq!(entry.name, "");
    assert!(entry.change.is_none());
}

#[test]
fn stop_after_start_leaves_no_running_entry() {
    let mut project = Project::new("Website".to_owned());
    project.time_entries.insert(1, closed("a", 0, 10));
    assert!(project.start(2, at(100)));
    assert_eq!(running_count(&project), 1);
    assert_eq!(project.stop(at(102)), Some(2));
    assert_eq!(running_count(&project), 0);
    assert_eq!(project.time_entries[&2].stopped, Some(at(102)));
    assert_eq!(project.time_entries[&2].started, at(100));
    assert_eq!(project.time_entries[&1].stopped, Some(at(10)));
}

#[test]
fn start_while_an_entry_runs_changes_nothing() {
    let mut project = Project::new("Website".to_owned());
    assert!(project.start(2, at(100)));
    assert!(!project.start(3, at(200)));
    assert_eq!(project.time_entries.len(), 1);
    assert_eq!(running_count(&project), 1);
    assert_eq!(project.active_entry(), Some(2));
}

#[test]
fn stop_without_a_running_entry_changes_nothing() {
    let mut project = Project::new("Website".to_owned());
    project.time_entries.insert(1, closed("a", 0, 10));
    assert_eq!(project.stop(at(50)), None);
    assert_eq!(project.time_entries[&1].stopped, Some(at(10)));
}

#[test]
fn stop_ends_the_oldest_running_entry() {
    let mut project = Project::new("Website".to_owned());
    project.time_entries.insert(5, TimeEntry::start("late".to_owned(), at(30)));
    project.time_entries.insert(3, TimeEntry::start("early".to_owned(), at(20)));
    project.time_entries.insert(1, closed("done", 0, 10));
    assert_eq!(project.active_entry(), Some(3));
    assert_eq!(project.stop(at(40)), Some(3));
    assert_eq!(project.active_entry(), Some(5));
}

#[test]
fn started_entry_takes_the_name_of_the_newest_entry() {
    let mut project = Project::new("Website".to_owned());
    assert_eq!(project.next_entry_name(), "");
    project.time_entries.insert(9, closed("newest", 0, 10));
    project.time_entries.insert(4, closed("older", 0, 10));
    assert_eq!(project.next_entry_name(), "newest");
    assert!(project.start(2, at(100)));
    assert_eq!(project.time_entries[&2].name, "newest");
}

#[test]
fn start_under_a_taken_id_replaces_the_entry() {
    let mut project = Project::new("Website".to_owned());
    project.time_entries.insert(1, closed("a", 0, 10));
    assert!(project.start(1, at(100)));
    assert_eq!(project.time_entries.len(), 1);
    assert_eq!(running_count(&project), 1);
    assert_eq!(project.time_entries[&1].name, "a");
}

#[test]
fn tracked_time_adds_closed_and_open_entries() {
    let ten = 10 * 3600;
    let now = at(20 * 3600);
    let mut first = Project::new("one".to_owned());
    first.time_entries.insert(1, closed("closed", ten, ten + 30 * 60));
    let mut second = Project::new("two".to_owned());
    second.time_entries.insert(2, TimeEntry::start("open".to_owned(), at(now.secs - 5 * 60)));
    let mut client = Client::new("Acme".to_owned());
    client.projects.insert(10, first);
    client.projects.insert(20, second);
    assert_eq!(client.tracked_time(&now), Some(Duration::from_seconds(35 * 60)));
    assert_eq!(client.tracked_time(&now).unwrap().num_minutes(), 35);
}

#[test]
fn tracked_time_of_nothing_is_zero() {
    let client = Client::new("Acme".to_owned());
    assert_eq!(client.tracked_time(&at(5)), Some(Duration::zero()));
    let project = Project::new("empty".to_owned());
    assert_eq!(project.tracked_time(&at(5)), Some(Duration::zero()));
}

#[test]
fn tracked_time_counts_negative_entries() {
    let mut project = Project::new("p".to_owned());
    project.time_entries.insert(1, closed("back", 100, 40));
    project.time_entries.insert(2, closed("forth", 0, 100));
    assert_eq!(project.tracked_time(&at(0)), Some(Duration::from_seconds(40)));
    assert_eq!(
        project.add_tracked_time(Some(Duration::from_seconds(2)), &at(0)),
        Some(Duration::from_seconds(42))
    );
    assert_eq!(project.add_tracked_time(None, &at(0)), None);
}

#[test]
fn tracked_time_beyond_the_range_is_none() {
    let mut project = Project::new("p".to_owned());
    project.time_entries.insert(1, closed("a", 0, 1));
    assert_eq!(
        project.add_tracked_time(Some(Duration { nanos: i128::MAX }), &at(0)),
        None
    );
}

#[test]
fn ids_are_stored_ascending_and_listed_newest_first() {
    let mut map: BTreeMap<u128, ()> = BTreeMap::new();
    assert_eq!(sorted_ids(&map), Vec::<u128>::new());
    assert_eq!(ids_newest_first(&map), Vec::<u128>::new());
    assert_eq!(newest_id(&map), None);
    for id in [5u128, 1, u128::MAX, 3] {
        map.insert(id, ());
    }
    assert_eq!(sorted_ids(&map), vec![1, 3, 5, u128::MAX]);
    assert_eq!(ids_newest_first(&map), vec![u128::MAX, 5, 3, 1]);
    assert_eq!(newest_id(&map), Some(u128::MAX));
}
