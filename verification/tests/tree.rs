use std::collections::BTreeMap;
use time_tracker::entity::{lookup, put, take, Client, Project, TimeBlock, TimeEntry, Tree};
use time_tracker::page::{clients_and_projects, time_blocks, time_tracker as tracker};
use time_tracker::time::{Duration, Timestamp};
use time_tracker::tree::{
    get_client, get_project, get_time_block, get_time_entry, put_project, put_time_block,
    put_time_entry, take_project, take_time_block, take_time_entry,
};

fn entry(name: &str) -> TimeEntry {
    TimeEntry::start(name.to_owned(), Timestamp { secs: 1, nanos: 0, offset: 0 })
}

fn sample() -> Tree {
    let mut project = Project::new("Website".to_owned());
    project.time_entries.insert(30, entry("design"));
    let mut client = Client::new("Acme".to_owned());
    client.projects.insert(20, project);
    client.time_blocks.insert(40, TimeBlock::new(Duration::from_hours(1)));
    let mut tree = BTreeMap::new();
    tree.insert(10, client);
    tree
}

#[test]
fn map_entries_are_taken_put_and_looked_up() {
    let mut map: BTreeMap<u128, Project> = BTreeMap::new();
    assert!(lookup(&map, 1).is_none());
    assert!(take(&mut map, 1).is_none());
    put(&mut map, 1, Project::new("a".to_owned()));
    put(&mut map, 1, Project::new("b".to_owned()));
    assert_eq!(map.len(), 1);
    assert_eq!(lookup(&map, 1).unwrap().name, "b");
    assert_eq!(take(&mut map, 1).unwrap().name, "b");
    assert!(map.is_empty());
}

#[test]
fn lookups_follow_the_path_of_owners() {
    let tree = sample();
    assert_eq!(get_client(&tree, 10).unwrap().name, "Acme");
    assert!(get_client(&tree, 11).is_none());
    assert_eq!(get_project(&tree, 10, 20).unwrap().name, "Website");
    assert!(get_project(&tree, 10, 21).is_none());
    assert!(get_project(&tree, 11, 20).is_none());
    assert_eq!(get_time_entry(&tree, 10, 20, 30).unwrap().name, "design");
    assert!(get_time_entry(&tree, 10, 20, 31).is_none());
    assert!(get_time_entry(&tree, 10, 21, 30).is_none());
    assert!(get_time_entry(&tree, 11, 20, 30).is_none());
    assert_eq!(get_time_block(&tree, 10, 40).unwrap().duration, Duration::from_hours(1));
    assert!(get_time_block(&tree, 10, 41).is_none());
    assert!(get_time_block(&tree, 11, 40).is_none());
}

#[test]
fn taking_removes_one_entity_and_leaves_the_rest() {
    let mut tree = sample();
    assert!(take_time_entry(&mut tree, 10, 20, 31).is_none());
    assert!(take_time_entry(&mut tree, 10, 21, 30).is_none());
    assert_eq!(take_time_entry(&mut tree, 10, 20, 30).unwrap().name, "design");
    assert!(tree[&10].projects[&20].time_entries.is_empty());
    assert_eq!(tree[&10].projects[&20].name, "Website");
    assert!(take_time_block(&mut tree, 11, 40).is_none());
    assert!(take_time_block(&mut tree, 10, 40).is_some());
    assert!(tree[&10].time_blocks.is_empty());
    assert!(take_project(&mut tree, 10, 21).is_none());
    assert_eq!(take_project(&mut tree, 10, 20).unwrap().name, "Website");
    assert!(tree[&10].projects.is_empty());
    assert_eq!(tree[&10].name, "Acme");
    assert_eq!(tree.len(), 1);
}

#[test]
fn putting_needs_the_owner() {
    let mut tree = sample();
    put_time_entry(&mut tree, 10, 20, 31, entry("build"));
    put_time_entry(&mut tree, 10, 21, 32, entry("lost"));
    put_time_entry(&mut tree, 11, 20, 33, entry("lost"));
    assert_eq!(
        tree[&10].projects[&20].time_entries.keys().copied().collect::<Vec<_>>(),
        vec![30, 31]
    );
    put_project(&mut tree, 10, 21, Project::new("Shop".to_owned()));
    put_project(&mut tree, 11, 22, Project::new("lost".to_owned()));
    assert_eq!(tree[&10].projects.keys().copied().collect::<Vec<_>>(), vec![20, 21]);
    put_time_block(&mut tree, 10, 41, TimeBlock::new(Duration::zero()));
    put_time_block(&mut tree, 11, 42, TimeBlock::new(Duration::zero()));
    assert_eq!(tree[&10].time_blocks.keys().copied().collect::<Vec<_>>(), vec![40, 41]);
    assert_eq!(tree.len(), 1);
}

#[test]
fn putting_replaces_what_is_stored_under_the_id() {
    let mut tree = sample();
    put_time_entry(&mut tree, 10, 20, 30, entry("redesign"));
    assert_eq!(tree[&10].projects[&20].time_entries.len(), 1);
    assert_eq!(tree[&10].projects[&20].time_entries[&30].name, "redesign");
    put_project(&mut tree, 10, 20, Project::new("Shop".to_owned()));
    assert_eq!(tree[&10].projects.len(), 1);
    assert!(tree[&10].projects[&20].time_entries.is_empty());
}

#[test]
fn every_page_holds_the_same_kind_of_state() {
    let (model, _) = clients_and_projects::init();
    let _: &tracker::Model = &model;
    let _: &time_blocks::Model = &model;
    let client: clients_and_projects::Client = Client::new("Acme".to_owned());
    let _: &tracker::Client = &client;
    let _: &time_blocks::Client = &client;
    assert_eq!(time_blocks::TimeBlockStatus::Paid, time_tracker::entity::TimeBlockStatus::Paid);
}
