use time_tracker::entity::TimeBlockStatus;
use time_tracker::fetched::{
    read_clients_with_projects, read_clients_with_time_blocks, read_clients_with_time_entries,
    read_stop, read_time,
};
use time_tracker::graphql::queries::{
    clients_with_projects as named, clients_with_projects_with_time_entries as timed,
    clients_with_time_blocks_and_time_entries as billed,
};
use time_tracker::graphql::types::DateTime;
use time_tracker::graphql::GraphQLError;
use time_tracker::ident::id_to_string;
use time_tracker::time::Duration;

fn unreadable(error: &GraphQLError) -> bool {
    matches!(error, GraphQLError::DecodeError(text)
        if text == "the answer of the remote store could not be read")
}

fn time(text: &str) -> DateTime {
    DateTime(text.to_owned())
}

#[test]
fn times_are_read_in_the_local_zone() {
    let t = read_time(&time("2020-01-15T16:53:39.5+01:00")).unwrap();
    assert_eq!((t.secs, t.nanos), (1_579_103_619, 500_000_000));
    assert!(-86_400 < t.offset && t.offset < 86_400);
    assert_eq!(read_time(&time("2020-01-15")), None);
    assert_eq!(read_time(&time("2016-12-31T23:59:60Z")), None);
    assert_eq!(read_stop(&None), Some(None));
    assert_eq!(read_stop(&Some(time("soon"))), None);
    let stop = read_stop(&Some(time("1970-01-01T00:00:00Z"))).unwrap().unwrap();
    assert_eq!((stop.secs, stop.nanos), (0, 0));
}

#[test]
fn clients_with_projects_are_read() {
    let query = named::Query {
        query_client: Some(vec![
            Some(named::Client {
                id: id_to_string(2),
                name: "Beta".to_owned(),
                projects: vec![],
            }),
            None,
            Some(named::Client {
                id: id_to_string(1).to_lowercase(),
                name: "Acme".to_owned(),
                projects: vec![
                    named::Project { id: id_to_string(7), name: "Shop".to_owned() },
                    named::Project { id: id_to_string(5), name: "Website".to_owned() },
                ],
            }),
        ]),
    };
    let tree = read_clients_with_projects(&query).unwrap();
    assert_eq!(tree.keys().copied().collect::<Vec<_>>(), vec![1, 2]);
    assert_eq!(tree[&1].name, "Acme");
    assert_eq!(tree[&2].name, "Beta");
    assert!(tree[&2].projects.is_empty());
    assert!(tree[&1].time_blocks.is_empty());
    assert_eq!(tree[&1].projects.keys().copied().collect::<Vec<_>>(), vec![5, 7]);
    assert_eq!(tree[&1].projects[&5].name, "Website");
    assert!(tree[&1].projects[&5].time_entries.is_empty());
}

#[test]
fn later_record_wins_over_an_earlier_one_of_the_same_id() {
    let client = |name: &str| {
        Some(named::Client { id: id_to_string(1), name: name.to_owned(), projects: vec![] })
    };
    let query = named::Query { query_client: Some(vec![client("first"), client("second")]) };
    let tree = read_clients_with_projects(&query).unwrap();
    assert_eq!(tree.len(), 1);
    assert_eq!(tree[&1].name, "second");
}

#[test]
fn answer_without_clients_is_refused() {
    let error = read_clients_with_projects(&named::Query { query_client: None }).unwrap_err();
    assert!(unreadable(&error));
    let error = read_clients_with_time_entries(&timed::Query { query_client: None }).unwrap_err();
    assert!(unreadable(&error));
    let error = read_clients_with_time_blocks(&billed::Query { query_client: None }).unwrap_err();
    assert!(unreadable(&error));
    let empty = read_clients_with_projects(&named::Query { query_client: Some(vec![]) }).unwrap();
    assert!(empty.is_empty());
}

#[test]
fn unreadable_identifier_refuses_the_answer() {
    let query = named::Query {
        query_client: Some(vec![
            Some(named::Client { id: id_to_string(1), name: "ok".to_owned(), projects: vec![] }),
            Some(named::Client { id: "nonsense".to_owned(), name: "bad".to_owned(), projects: vec![] }),
        ]),
    };
    assert!(unreadable(&read_clients_with_projects(&query).unwrap_err()));
    let query = named::Query {
        query_client: Some(vec![Some(named::Client {
            id: id_to_string(1),
            name: "ok".to_owned(),
            projects: vec![named::Project { id: "".to_owned(), name: "bad".to_owned() }],
        })]),
    };
    assert!(unreadable(&read_clients_with_projects(&query).unwrap_err()));
}

fn timed_query(entry_id: &str, started: &str, stopped: Option<&str>) -> timed::Query {
    timed::Query {
        query_client: Some(vec![
            None,
            Some(timed::Client {
                id: id_to_string(1),
                name: "Acme".to_owned(),
                projects: vec![timed::Project {
                    id: id_to_string(2),
                    name: "Website".to_owned(),
                    time_entries: vec![
                        timed::TimeEntry {
                            id: id_to_string(3),
                            name: "design".to_owned(),
                            started: time("2020-01-15T15:53:39Z"),
                            stopped: Some(time("2020-01-15T16:53:39Z")),
                        },
                        timed::TimeEntry {
                            id: entry_id.to_owned(),
                            name: "build".to_owned(),
                            started: time(started),
                            stopped: stopped.map(time),
                        },
                    ],
                }],
            }),
        ]),
    }
}

#[test]
fn clients_with_time_entries_are_read() {
    let query = timed_query(&id_to_string(4), "2020-01-16T08:00:00+02:00", None);
    let tree = read_clients_with_time_entries(&query).unwrap();
    assert_eq!(tree.len(), 1);
    assert_eq!(tree[&1].name, "Acme");
    let project = &tree[&1].projects[&2];
    assert_eq!(project.name, "Website");
    assert_eq!(project.time_entries.len(), 2);
    let design = &project.time_entries[&3];
    assert_eq!(design.name, "design");
    assert_eq!(design.started.secs, 1_579_103_619);
    assert_eq!(design.stopped.unwrap().secs, 1_579_103_619 + 3600);
    assert!(design.change.is_none());
    let build = &project.time_entries[&4];
    assert_eq!(build.started.secs, 1_579_154_400);
    assert_eq!(build.stopped, None);
    assert_eq!(project.active_entry(), Some(4));
}

#[test]
fn unreadable_time_refuses_the_answer() {
    let bad_start = timed_query(&id_to_string(4), "yesterday", None);
    assert!(unreadable(&read_clients_with_time_entries(&bad_start).unwrap_err()));
    let bad_stop = timed_query(&id_to_string(4), "2020-01-16T08:00:00Z", Some("later"));
    assert!(unreadable(&read_clients_with_time_entries(&bad_stop).unwrap_err()));
    let bad_id = timed_query("4", "2020-01-16T08:00:00Z", None);
    assert!(unreadable(&read_clients_with_time_entries(&bad_id).unwrap_err()));
}

fn billed_query(invoice_id: &str, started: &str) -> billed::Query {
    billed::Query {
        query_client: Some(vec![Some(billed::Client {
            id: id_to_string(1),
            name: "Acme".to_owned(),
            time_blocks: vec![
                billed::TimeBlock {
                    id: id_to_string(9),
                    name: "March".to_owned(),
                    status: billed::TimeBlockStatus::Paid,
                    duration: 72_000,
                    invoice: Some(billed::Invoice {
                        id: invoice_id.to_owned(),
                        custom_id: Some("2020-7".to_owned()),
                        url: None,
                    }),
                },
                billed::TimeBlock {
                    id: id_to_string(8),
                    name: "free".to_owned(),
                    status: billed::TimeBlockStatus::NonBillable,
                    duration: -60,
                    invoice: None,
                },
            ],
            projects: vec![
                billed::Project { time_entries: vec![] },
                billed::Project {
                    time_entries: vec![
                        billed::TimeEntry {
                            started: time(started),
                            stopped: Some(time("2020-01-15T10:30:00Z")),
                        },
                        billed::TimeEntry { started: time("2020-01-15T11:00:00Z"), stopped: None },
                    ],
                },
            ],
        })]),
    }
}

#[test]
fn clients_with_time_blocks_are_read() {
    let query = billed_query(&id_to_string(6), "2020-01-15T10:00:00Z");
    let tree = read_clients_with_time_blocks(&query).unwrap();
    let acme = &tree[&1];
    assert_eq!(acme.name, "Acme");
    assert_eq!(acme.time_blocks.keys().copied().collect::<Vec<_>>(), vec![8, 9]);
    let march = &acme.time_blocks[&9];
    assert_eq!(march.name, "March");
    assert_eq!(march.status, TimeBlockStatus::Paid);
    assert_eq!(march.duration, Duration::from_hours(20));
    assert!(march.duration_change.is_none());
    let invoice = march.invoice.as_ref().unwrap();
    assert_eq!(invoice.id, 6);
    assert_eq!(invoice.custom_id.as_deref(), Some("2020-7"));
    assert_eq!(invoice.url, None);
    let free = &acme.time_blocks[&8];
    assert_eq!(free.status, TimeBlockStatus::NonBillable);
    assert_eq!(free.duration, Duration::from_seconds(-60));
    assert!(free.invoice.is_none());
    assert_eq!(acme.projects.keys().copied().collect::<Vec<_>>(), vec![0, 1]);
    assert!(acme.projects[&0].time_entries.is_empty());
    let entries = &acme.projects[&1].time_entries;
    assert_eq!(entries.keys().copied().collect::<Vec<_>>(), vec![0, 1]);
    assert_eq!(entries[&0].stopped.unwrap().since(&entries[&0].started), Duration::from_seconds(1800));
    assert_eq!(entries[&1].stopped, None);
    let now = time_tracker::time::Timestamp { secs: entries[&1].started.secs + 300, nanos: 0, offset: 0 };
    assert_eq!(acme.tracked_time(&now), Some(Duration::from_seconds(35 * 60)));
    assert_eq!(acme.minutes_to_block(&now), Some(35 - 1200 + 1));
}

#[test]
fn unreadable_billing_answer_is_refused() {
    let bad_invoice = billed_query("", "2020-01-15T10:00:00Z");
    assert!(unreadable(&read_clients_with_time_blocks(&bad_invoice).unwrap_err()));
    let bad_time = billed_query(&id_to_string(6), "ten");
    assert!(unreadable(&read_clients_with_time_blocks(&bad_time).unwrap_err()));
}
