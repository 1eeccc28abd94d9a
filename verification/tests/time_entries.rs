use time_tracker::entity::{TimeEntry, TimeEntryChange};
use time_tracker::time::{Duration, Timestamp};
use time_tracker::time_entry::{ask_zone, CommitField, ZoneQuery};

fn t0() -> Timestamp {
    Timestamp { secs: 1_579_103_619, nanos: 250_000_000, offset: 0 }
}

fn entry() -> TimeEntry {
    TimeEntry {
        name: "write report".to_owned(),
        started: t0(),
        stopped: Some(Timestamp { secs: 1_579_103_619 + 1800, nanos: 0, offset: 0 }),
        change: None,
    }
}

#[test]
fn invalid_start_date_leaves_the_start_as_it_was() {
    let mut e = entry();
    let stopped = e.stopped;
    e.stage(TimeEntryChange::StartedDate("not-a-date".to_owned()));
    assert!(!e.save_change());
    assert_eq!(e.started, t0());
    assert_eq!(e.stopped, stopped);
    assert_eq!(e.name, "write report");
    assert!(e.change.is_none());
}

#[test]
fn every_unreadable_change_leaves_both_times() {
    let changes = [
        TimeEntryChange::StartedDate("2020-02-30".to_owned()),
        TimeEntryChange::StartedTime("25:00:00".to_owned()),
        TimeEntryChange::StoppedDate("".to_owned()),
        TimeEntryChange::StoppedTime("noon".to_owned()),
        TimeEntryChange::Duration("12:3".to_owned()),
    ];
    for change in changes {
        let mut e = entry();
        let stopped = e.stopped;
        e.stage(change);
        assert!(e.plan_commit().is_none());
        assert!(!e.save_change());
        assert_eq!(e.started, t0());
        assert_eq!(e.stopped, stopped);
        assert!(e.change.is_none());
    }
}

#[test]
fn staging_overwrites_what_was_staged() {
    let mut e = entry();
    e.stage(TimeEntryChange::Duration("12:3".to_owned()));
    e.stage(TimeEntryChange::Duration("0:45:00".to_owned()));
    assert!(matches!(&e.change, Some(TimeEntryChange::Duration(text)) if text == "0:45:00"));
    assert_eq!(e.started, t0());
}

#[test]
fn committing_without_a_staged_change_does_nothing() {
    let mut e = entry();
    assert!(e.plan_commit().is_none());
    assert!(!e.save_change());
    assert_eq!(e.started, t0());
}

#[test]
fn plan_for_a_start_date_keeps_the_clock_time() {
    let mut e = entry();
    e.stage(TimeEntryChange::StartedDate("2020-02-01".to_owned()));
    assert_eq!(
        e.plan_commit(),
        Some((
            CommitField::Started,
            ZoneQuery::Local { day: 18_293, second_of_day: 57_219, nanos: 250_000_000 }
        ))
    );
}

#[test]
fn plan_for_a_start_time_keeps_the_day() {
    let mut e = entry();
    e.stage(TimeEntryChange::StartedTime("08:00:00".to_owned()));
    assert_eq!(
        e.plan_commit(),
        Some((CommitField::Started, ZoneQuery::Local { day: 18_276, second_of_day: 28_800, nanos: 0 }))
    );
}

#[test]
fn plan_for_a_duration_adds_to_the_start() {
    let mut e = entry();
    e.stage(TimeEntryChange::Duration("-2:15:00".to_owned()));
    assert_eq!(
        e.plan_commit(),
        Some((
            CommitField::Stopped,
            ZoneQuery::Instant { secs: 1_579_103_619 - 8100, nanos: 250_000_000 }
        ))
    );
}

#[test]
fn plan_for_a_stop_needs_a_stop() {
    let mut e = entry();
    e.stage(TimeEntryChange::StoppedTime("17:00:00".to_owned()));
    let stopped = e.stopped.unwrap();
    assert_eq!(
        e.plan_commit(),
        Some((
            CommitField::Stopped,
            ZoneQuery::Local { day: stopped.day_of(), second_of_day: 61_200, nanos: 0 }
        ))
    );
    e.stopped = None;
    assert_eq!(e.plan_commit(), None);
    e.stage(TimeEntryChange::StoppedDate("2020-02-01".to_owned()));
    assert_eq!(e.plan_commit(), None);
}

#[test]
fn plan_for_a_duration_beyond_the_range_is_refused() {
    let mut e = entry();
    e.started = Timestamp { secs: i64::MAX - 10, nanos: 0, offset: 0 };
    e.stage(TimeEntryChange::Duration("0:00:11".to_owned()));
    assert_eq!(e.plan_commit(), None);
    e.stage(TimeEntryChange::Duration("0:00:10".to_owned()));
    assert_eq!(
        e.plan_commit(),
        Some((CommitField::Stopped, ZoneQuery::Instant { secs: i64::MAX, nanos: 0 }))
    );
    assert!(!e.save_change());
    assert!(e.stopped.is_none() || e.stopped == entry().stopped);
}

#[test]
fn committed_start_date_shows_the_date_and_keeps_the_time() {
    let mut e = entry();
    let time = e.started.second_of_day();
    e.stage(TimeEntryChange::StartedDate("2020-02-01".to_owned()));
    assert!(e.save_change());
    assert_eq!(e.started.day_of(), 18_293);
    assert_eq!(e.started.second_of_day(), time);
    assert_eq!(e.started.nanos, 250_000_000);
    assert_eq!(e.stopped, entry().stopped);
    assert!(e.change.is_none());
    assert_eq!(e.started_date_field().as_deref(), Some("2020-02-01"));
}

#[test]
fn committed_start_time_shows_the_time_and_keeps_the_date() {
    let mut e = entry();
    let day = e.started.day_of();
    e.stage(TimeEntryChange::StartedTime("08:00:00".to_owned()));
    assert!(e.save_change());
    assert_eq!(e.started.day_of(), day);
    assert_eq!(e.started.second_of_day(), 28_800);
    assert_eq!(e.started.nanos, 0);
    assert_eq!(e.started_time_field().as_deref(), Some("08:00:00"));
}

#[test]
fn committed_stop_date_and_time_change_the_stop_only() {
    let mut e = entry();
    e.stage(TimeEntryChange::StoppedDate("2020-01-16".to_owned()));
    assert!(e.save_change());
    e.stage(TimeEntryChange::StoppedTime("00:00:01".to_owned()));
    assert!(e.save_change());
    let stopped = e.stopped.unwrap();
    assert_eq!(stopped.day_of(), 18_277);
    assert_eq!(stopped.second_of_day(), 1);
    assert_eq!(e.started, t0());
}

#[test]
fn committed_duration_sets_the_stop_after_the_start() {
    let mut e = entry();
    e.stopped = None;
    e.stage(TimeEntryChange::Duration("1:00:05".to_owned()));
    assert!(e.save_change());
    let stopped = e.stopped.unwrap();
    assert_eq!(stopped.since(&e.started), Duration::from_seconds(3605));
    assert_eq!(e.started, t0());
    assert!(!e.is_active());
}

#[test]
fn negative_duration_sets_the_stop_before_the_start() {
    let mut e = entry();
    e.stage(TimeEntryChange::Duration("-2:15:00".to_owned()));
    assert!(e.save_change());
    assert_eq!(e.stopped.unwrap().since(&e.started), Duration::from_seconds(-8100));
    assert_eq!(e.duration_field(&t0()), "-2:15:00");
}

#[test]
fn finish_commit_stores_the_answer_in_the_field() {
    let answer = Timestamp { secs: 7, nanos: 0, offset: 60 };
    let mut e = entry();
    e.stage(TimeEntryChange::Duration("x".to_owned()));
    assert!(e.finish_commit(CommitField::Started, Some(answer)));
    assert_eq!(e.started, answer);
    assert_eq!(e.stopped, entry().stopped);
    assert!(e.change.is_none());
    let mut e = entry();
    assert!(e.finish_commit(CommitField::Stopped, Some(answer)));
    assert_eq!(e.started, t0());
    assert_eq!(e.stopped, Some(answer));
    let mut e = entry();
    e.stage(TimeEntryChange::Duration("x".to_owned()));
    assert!(!e.finish_commit(CommitField::Stopped, None));
    assert_eq!(e.stopped, entry().stopped);
    assert!(e.change.is_none());
}

#[test]
fn the_zone_answers_with_what_was_asked() {
    let t = ask_zone(ZoneQuery::Instant { secs: 1_579_103_619, nanos: 3 }).unwrap();
    assert_eq!((t.secs, t.nanos), (1_579_103_619, 3));
    let t = ask_zone(ZoneQuery::Local { day: 18_276, second_of_day: 100, nanos: 4 }).unwrap();
    assert_eq!((t.day_of(), t.second_of_day(), t.nanos), (18_276, 100, 4));
    assert_eq!(ask_zone(ZoneQuery::Local { day: 18_276, second_of_day: 86_400, nanos: 0 }), None);
}

#[test]
fn elapsed_runs_to_the_stop_or_to_now() {
    let mut e = entry();
    let now = Timestamp { secs: 1_579_103_619 + 5000, nanos: 0, offset: 3600 };
    assert_eq!(e.elapsed(&now), Duration { nanos: 1_799_750_000_000 });
    assert!(!e.is_active());
    assert_eq!(e.shown_stop(&now), e.stopped.unwrap());
    e.stopped = None;
    assert_eq!(e.elapsed(&now), Duration { nanos: 4_999_750_000_000 });
    assert!(e.is_active());
    assert_eq!(e.shown_stop(&now), now);
}

#[test]
fn fields_show_the_staged_text_while_it_is_staged() {
    let now = Timestamp { secs: 1_579_103_619 + 5000, nanos: 0, offset: 0 };
    let mut e = entry();
    assert_eq!(e.duration_field(&now), "0:29:59");
    assert_eq!(e.started_date_field().as_deref(), Some("2020-01-15"));
    assert_eq!(e.started_time_field().as_deref(), Some("15:53:39"));
    assert_eq!(e.stopped_date_field(&now).as_deref(), Some("2020-01-15"));
    assert_eq!(e.stopped_time_field(&now).as_deref(), Some("16:23:39"));
    e.stage(TimeEntryChange::Duration("12:3".to_owned()));
    assert_eq!(e.duration_field(&now), "12:3");
    assert_eq!(e.started_date_field().as_deref(), Some("2020-01-15"));
    e.stage(TimeEntryChange::StartedDate("2020-".to_owned()));
    assert_eq!(e.started_date_field().as_deref(), Some("2020-"));
    assert_eq!(e.duration_field(&now), "0:29:59");
    e.stage(TimeEntryChange::StartedTime("1".to_owned()));
    assert_eq!(e.started_time_field().as_deref(), Some("1"));
    e.stage(TimeEntryChange::StoppedDate("2".to_owned()));
    assert_eq!(e.stopped_date_field(&now).as_deref(), Some("2"));
    e.stage(TimeEntryChange::StoppedTime("3".to_owned()));
    assert_eq!(e.stopped_time_field(&now).as_deref(), Some("3"));
}

#[test]
fn running_entry_shows_now_as_its_stop() {
    let now = Timestamp { secs: 1_579_103_619 + 5000, nanos: 0, offset: 0 };
    let mut e = entry();
    e.stopped = None;
    assert_eq!(e.duration_field(&now), "1:23:19");
    assert_eq!(e.stopped_time_field(&now).as_deref(), Some("17:16:59"));
}
