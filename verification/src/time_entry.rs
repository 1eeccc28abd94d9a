//! Editing the times of a time entry.
//!
//! Five fields can be edited, one at a time: the date and the clock time of
//! the start, the date and the clock time of the stop, and the duration. An
//! edit is first staged as the text that was typed. Committing it reads the
//! text, combines what was read with the part of the timestamp that was not
//! edited, asks the local zone for the timestamp that this gives, and stores
//! the answer. If any of these steps fails the times stay as they were.
use vstd::prelude::*;
use crate::duration_text::duration_of_text;
use crate::duration_text::duration_text;
use crate::duration_text::format_duration;
use crate::duration_text::parse_duration;
use crate::entity::TimeEntry;
use crate::entity::TimeEntryChange;
use crate::entity::TimeEntryChangeView;
use crate::entity::TimeEntryView;
use crate::time::Duration;
use crate::time::Timestamp;
use crate::time::date_of_text;
use crate::time::format_date;
use crate::time::format_time;
use crate::time::has_timestamp;
use crate::time::is_clock_time;
use crate::time::is_local_reading;
use crate::time::is_local_resolution;
use crate::time::local_date_text;
use crate::time::local_time_text;
use crate::time::parse_date_text;
use crate::time::parse_time_text;
use crate::time::time_of_text;
use crate::time::timestamp_at;
use crate::time::timestamp_at_local;

verus! {

/// The timestamp of an entry that a commit sets.
#[derive(Clone, Copy, Debug, PartialEq, Eq, Structural)]
pub enum CommitField {
    Started,
    Stopped,
}

/// What a commit asks of the local zone.
#[derive(Clone, Copy, Debug, PartialEq, Eq, Structural)]
pub enum ZoneQuery {
    /// The timestamp at which the local clock shows the given date and time.
    Local { day: i64, second_of_day: u32, nanos: u32 },
    /// The timestamp at the given instant.
    Instant { secs: i64, nanos: u32 },
}

impl ZoneQuery {
    /// Whether the query is sure of an answer: it asks for an instant that
    /// has a timestamp. Whether a local date and clock time has one is for
    /// the zone to say.
    pub open spec fn is_answered(self) -> bool {
        self matches ZoneQuery::Instant { secs, nanos } && has_timestamp(secs as int, nanos as int)
    }

    /// Whether the query is sure of no answer: it asks for an instant that
    /// has no timestamp, or for what is no date and clock time.
    pub open spec fn is_unanswerable(self) -> bool {
        match self {
            ZoneQuery::Local { day, second_of_day, nanos } => !is_clock_time(
                day as int,
                second_of_day as int,
                nanos as int,
            ),
            ZoneQuery::Instant { secs, nanos } => !has_timestamp(secs as int, nanos as int),
        }
    }

    /// Whether `answer` is one that the local zone may give to this query:
    /// a timestamp that is what was asked for, or nothing; a timestamp
    /// where the query is sure of an answer, nothing where it is sure of none.
    pub open spec fn answered_by(self, answer: Option<Timestamp>) -> bool {
        &&& match self {
            ZoneQuery::Local { day, second_of_day, nanos } => is_local_resolution(
                day as int,
                second_of_day as int,
                nanos as int,
                answer,
            ),
            ZoneQuery::Instant { secs, nanos } => is_local_reading(
                secs as int,
                nanos as int,
                answer,
            ),
        }
        &&& self.is_answered() ==> answer is Some
        &&& self.is_unanswerable() ==> answer is None
    }
}

/// The query for the timestamp that keeps the clock time of `t` on another day.
pub open spec fn on_day(t: Timestamp, day: int) -> Option<ZoneQuery> {
    if i64::MIN <= day <= i64::MAX {
        Some(
            ZoneQuery::Local {
                day: day as i64,
                second_of_day: t.local_second_of_day() as u32,
                nanos: t.nanos,
            },
        )
    } else {
        None
    }
}

/// The query for the timestamp that keeps the day of `t` at another clock time.
pub open spec fn at_time(t: Timestamp, second_of_day: int, nanos: int) -> Option<ZoneQuery> {
    Some(
        ZoneQuery::Local {
            day: t.local_day() as i64,
            second_of_day: second_of_day as u32,
            nanos: nanos as u32,
        },
    )
}

/// The query for the timestamp that lies `seconds` after `t`.
pub open spec fn after(t: Timestamp, seconds: int) -> Option<ZoneQuery> {
    if i64::MIN <= t.secs + seconds <= i64::MAX {
        Some(ZoneQuery::Instant { secs: (t.secs + seconds) as i64, nanos: t.nanos })
    } else {
        None
    }
}

/// What committing the staged change of `entry` sets and asks, if the
/// staged text can be read and the edited timestamp is there.
pub open spec fn commit_plan(entry: TimeEntryView) -> Option<(CommitField, ZoneQuery)> {
    match entry.change {
        None => None,
        Some(TimeEntryChangeView::StartedDate(text)) => match date_of_text(text) {
            Some(day) => match on_day(entry.started, day) {
                Some(q) => Some((CommitField::Started, q)),
                None => None,
            },
            None => None,
        },
        Some(TimeEntryChangeView::StartedTime(text)) => match time_of_text(text) {
            Some((second, nanos)) => match at_time(entry.started, second, nanos) {
                Some(q) => Some((CommitField::Started, q)),
                None => None,
            },
            None => None,
        },
        Some(TimeEntryChangeView::Duration(text)) => match duration_of_text(text) {
            Some(seconds) => match after(entry.started, seconds) {
                Some(q) => Some((CommitField::Stopped, q)),
                None => None,
            },
            None => None,
        },
        Some(TimeEntryChangeView::StoppedDate(text)) => match (date_of_text(text), entry.stopped) {
            (Some(day), Some(stopped)) => match on_day(stopped, day) {
                Some(q) => Some((CommitField::Stopped, q)),
                None => None,
            },
            _ => None,
        },
        Some(TimeEntryChangeView::StoppedTime(text)) => match (time_of_text(text), entry.stopped) {
            (Some((second, nanos)), Some(stopped)) => match at_time(stopped, second, nanos) {
                Some(q) => Some((CommitField::Stopped, q)),
                None => None,
            },
            _ => None,
        },
    }
}

impl TimeEntryView {
    /// The entry after its staged change was dropped.
    pub open spec fn unstaged(self) -> TimeEntryView {
        TimeEntryView { change: None, ..self }
    }

    /// The entry after a commit to `field` got `answer` from the local zone.
    pub open spec fn committed(self, field: CommitField, answer: Option<Timestamp>)
        -> TimeEntryView {
        match answer {
            None => self.unstaged(),
            Some(t) => match field {
                CommitField::Started => TimeEntryView { started: t, change: None, ..self },
                CommitField::Stopped => TimeEntryView { stopped: Some(t), change: None, ..self },
            },
        }
    }

    /// Whether `after` is what committing the staged change of `self` may leave.
    pub open spec fn commits_to(self, after: TimeEntryView) -> bool {
        match commit_plan(self) {
            None => after == self.unstaged(),
            Some((field, query)) => exists|answer: Option<Timestamp>|
                query.answered_by(answer) && after == #[trigger] self.committed(field, answer),
        }
    }

    /// Whether `after` is `self` with a timestamp stored by the commit of
    /// its staged change: the change makes a plan, and the timestamp is an
    /// answer to the query of the plan.
    pub open spec fn stores(self, after: TimeEntryView) -> bool {
        commit_plan(self) matches Some((field, query)) && exists|t: Timestamp|
            query.answered_by(Some(t)) && after == #[trigger] self.committed(field, Some(t))
    }

    /// Whether committing the staged change of `self` is sure to store a
    /// timestamp: the change makes a plan whose query is sure of an answer.
    pub open spec fn is_stored(self) -> bool {
        commit_plan(self) matches Some((_, query)) && query.is_answered()
    }

    /// Whether committing the staged change of `self` is sure to store
    /// nothing: the change makes no plan, or a plan whose query is sure of
    /// no answer.
    pub open spec fn is_dropped(self) -> bool {
        match commit_plan(self) {
            Some((_, query)) => query.is_unanswerable(),
            None => true,
        }
    }
}

impl TimeEntry {
    /// An entry that starts running at `started`.
    pub fn start(name: String, started: Timestamp) -> (entry: TimeEntry)
        ensures
            entry@ == (TimeEntryView { name: name@, started, stopped: None, change: None }),
    {
        TimeEntry { name, started, stopped: None, change: None }
    }

    /// Whether the entry runs.
    pub fn is_active(&self) -> (active: bool)
        ensures
            active == self@.is_running(),
    {
        self.stopped.is_none()
    }

    /// The time tracked by this entry when looked at at `now`: up to its
    /// stop, or up to `now` while it runs.
    pub fn elapsed(&self, now: &Timestamp) -> (d: Duration)
        ensures
            d.nanos == self@.elapsed(*now),
    {
        match &self.stopped {
            Some(stopped) => stopped.since(&self.started),
            None => now.since(&self.started),
        }
    }

    /// Stages `change`, in place of what was staged before.
    pub fn stage(&mut self, change: TimeEntryChange)
        ensures
            final(self)@ == (TimeEntryView { change: Some(change@), ..old(self)@ }),
    {
        self.change = Some(change);
    }

    /// What committing the staged change would set and ask.
    pub fn plan_commit(&self) -> (plan: Option<(CommitField, ZoneQuery)>)
        ensures
            plan == commit_plan(self@),
    {
        match &self.change {
            None => None,
            Some(TimeEntryChange::StartedDate(text)) => match parse_date_text(text.as_str()) {
                Some(day) => Some(
                    (
                        CommitField::Started,
                        ZoneQuery::Local {
                            day: day as i64,
                            second_of_day: self.started.second_of_day(),
                            nanos: self.started.nanos,
                        },
                    ),
                ),
                None => None,
            },
            Some(TimeEntryChange::StartedTime(text)) => match parse_time_text(text.as_str()) {
                Some((second_of_day, nanos)) => Some(
                    (
                        CommitField::Started,
                        ZoneQuery::Local { day: self.started.day_of(), second_of_day, nanos },
                    ),
                ),
                None => None,
            },
            Some(TimeEntryChange::Duration(text)) => match parse_duration(text.as_str()) {
                Some(seconds) => match self.started.secs.checked_add(seconds) {
                    Some(secs) => Some(
                        (
                            CommitField::Stopped,
                            ZoneQuery::Instant { secs, nanos: self.started.nanos },
                        ),
                    ),
                    None => None,
                },
                None => None,
            },
            Some(TimeEntryChange::StoppedDate(text)) => match (
                parse_date_text(text.as_str()),
                &self.stopped,
            ) {
                (Some(day), Some(stopped)) => Some(
                    (
                        CommitField::Stopped,
                        ZoneQuery::Local {
                            day: day as i64,
                            second_of_day: stopped.second_of_day(),
                            nanos: stopped.nanos,
                        },
                    ),
                ),
                _ => None,
            },
            Some(TimeEntryChange::StoppedTime(text)) => match (
                parse_time_text(text.as_str()),
                &self.stopped,
            ) {
                (Some((second_of_day, nanos)), Some(stopped)) => Some(
                    (
                        CommitField::Stopped,
                        ZoneQuery::Local { day: stopped.day_of(), second_of_day, nanos },
                    ),
                ),
                _ => None,
            },
        }
    }

    /// Ends a commit: drops the staged change and, if the local zone gave an
    /// answer, stores it in `field`. Says whether a timestamp was stored.
    pub fn finish_commit(&mut self, field: CommitField, answer: Option<Timestamp>) -> (stored: bool)
        ensures
            final(self)@ == old(self)@.committed(field, answer),
            stored == answer is Some,
    {
        self.change = None;
        match answer {
            None => false,
            Some(t) => {
                match field {
                    CommitField::Started => {
                        self.started = t;
                    },
                    CommitField::Stopped => {
                        self.stopped = Some(t);
                    },
                }
                true
            },
        }
    }

    /// Commits the staged change. Says whether a timestamp was stored.
    ///
    /// The staged change is dropped in any case. The name is kept. Of the
    /// two timestamps at most one changes, and only to an answer of the
    /// local zone to the query that the staged change makes. A duration
    /// that can be read is stored where the start and the duration make an
    /// instant that has a timestamp; whether a date or a clock time is
    /// stored is for the zone to say.
    pub fn save_change(&mut self) -> (stored: bool)
        ensures
            old(self)@.commits_to(final(self)@),
            stored ==> old(self)@.stores(final(self)@),
            !stored ==> final(self)@ == old(self)@.unstaged(),
            old(self)@.is_stored() ==> stored,
            old(self)@.is_dropped() ==> !stored,
    {
        match self.plan_commit() {
            None => {
                self.change = None;
                false
            },
            Some((field, query)) => {
                let answer = ask_zone(query);
                let ghost before = self@;
                let stored = self.finish_commit(field, answer);
                proof {
                    if let Some(t) = answer {
                        assert(self@ == before.committed(field, Some(t)));
                    }
                }
                stored
            },
        }
    }
}

impl TimeEntryView {
    /// The stop that is shown: the stop, or `now` while the entry runs.
    pub open spec fn shown_stop(self, now: Timestamp) -> Timestamp {
        match self.stopped {
            Some(stopped) => stopped,
            None => now,
        }
    }

    /// What the duration field shows: the staged text while a duration is
    /// staged, else the tracked time in whole seconds.
    pub open spec fn duration_field(self, now: Timestamp) -> Seq<char> {
        match self.change {
            Some(TimeEntryChangeView::Duration(text)) => text,
            _ => duration_text((Duration { nanos: self.elapsed(now) as i128 }).seconds()),
        }
    }

    /// What the field of the start date shows.
    pub open spec fn started_date_field(self) -> Option<Seq<char>> {
        match self.change {
            Some(TimeEntryChangeView::StartedDate(text)) => Some(text),
            _ => local_date_text(self.started),
        }
    }

    /// What the field of the start time shows.
    pub open spec fn started_time_field(self) -> Option<Seq<char>> {
        match self.change {
            Some(TimeEntryChangeView::StartedTime(text)) => Some(text),
            _ => local_time_text(self.started),
        }
    }

    /// What the field of the stop date shows.
    pub open spec fn stopped_date_field(self, now: Timestamp) -> Option<Seq<char>> {
        match self.change {
            Some(TimeEntryChangeView::StoppedDate(text)) => Some(text),
            _ => local_date_text(self.shown_stop(now)),
        }
    }

    /// What the field of the stop time shows.
    pub open spec fn stopped_time_field(self, now: Timestamp) -> Option<Seq<char>> {
        match self.change {
            Some(TimeEntryChangeView::StoppedTime(text)) => Some(text),
            _ => local_time_text(self.shown_stop(now)),
        }
    }
}

/// Whether `text` has the characters `wanted`, or is missing with them.
pub open spec fn shows(text: Option<String>, wanted: Option<Seq<char>>) -> bool {
    match (text, wanted) {
        (Some(t), Some(w)) => t@ == w,
        (None, None) => true,
        _ => false,
    }
}

impl TimeEntry {
    /// The stop that is shown: the stop, or `now` while the entry runs.
    pub fn shown_stop(&self, now: &Timestamp) -> (t: Timestamp)
        ensures
            t == self@.shown_stop(*now),
    {
        match self.stopped {
            Some(stopped) => stopped,
            None => *now,
        }
    }

    /// What the duration field shows.
    pub fn duration_field(&self, now: &Timestamp) -> (text: String)
        ensures
            text@ == self@.duration_field(*now),
    {
        match &self.change {
            Some(TimeEntryChange::Duration(text)) => text.clone(),
            _ => format_duration(self.elapsed(now).num_seconds()),
        }
    }

    /// What the field of the start date shows; nothing where the date
    /// cannot be written.
    pub fn started_date_field(&self) -> (text: Option<String>)
        ensures
            shows(text, self@.started_date_field()),
    {
        match &self.change {
            Some(TimeEntryChange::StartedDate(text)) => Some(text.clone()),
            _ => format_date(&self.started),
        }
    }

    /// What the field of the start time shows; nothing where the time
    /// cannot be written.
    pub fn started_time_field(&self) -> (text: Option<String>)
        ensures
            shows(text, self@.started_time_field()),
    {
        match &self.change {
            Some(TimeEntryChange::StartedTime(text)) => Some(text.clone()),
            _ => format_time(&self.started),
        }
    }

    /// What the field of the stop date shows; nothing where the date
    /// cannot be written.
    pub fn stopped_date_field(&self, now: &Timestamp) -> (text: Option<String>)
        ensures
            shows(text, self@.stopped_date_field(*now)),
    {
        match &self.change {
            Some(TimeEntryChange::StoppedDate(text)) => Some(text.clone()),
            _ => format_date(&self.shown_stop(now)),
        }
    }

    /// What the field of the stop time shows; nothing where the time
    /// cannot be written.
    pub fn stopped_time_field(&self, now: &Timestamp) -> (text: Option<String>)
        ensures
            shows(text, self@.stopped_time_field(*now)),
    {
        match &self.change {
            Some(TimeEntryChange::StoppedTime(text)) => Some(text.clone()),
            _ => format_time(&self.shown_stop(now)),
        }
    }
}

/// Puts a query to the local zone. A query for an instant is answered
/// exactly where the instant has a timestamp; a query for a local date and
/// clock time is answered where the zone has exactly one timestamp for it.
pub fn ask_zone(query: ZoneQuery) -> (answer: Option<Timestamp>)
    ensures
        query.answered_by(answer),
        query.is_answered() ==> answer is Some,
        query.is_unanswerable() ==> answer is None,
{
    match query {
        ZoneQuery::Local { day, second_of_day, nanos } => timestamp_at_local(
            day,
            second_of_day,
            nanos,
        ),
        ZoneQuery::Instant { secs, nanos } => timestamp_at(secs, nanos),
    }
}

/// A commit is all or nothing: it keeps the name, drops the staged change,
/// and leaves both timestamps as they were or sets exactly the one that the
/// staged change is about.
pub proof fn lemma_commit_is_atomic(before: TimeEntryView, after: TimeEntryView)
    requires
        before.commits_to(after),
    ensures
        after.name == before.name,
        after.change is None,
        after.started == before.started || after.stopped == before.stopped,
        commit_plan(before) is None ==> after.started == before.started && after.stopped
            == before.stopped,
        commit_plan(before) matches Some((field, _)) && field == CommitField::Started
            ==> after.stopped == before.stopped,
        commit_plan(before) matches Some((field, _)) && field == CommitField::Stopped
            ==> after.started == before.started,
{
}

/// A commit starts nothing: an entry that runs after a commit ran before it.
pub proof fn lemma_commit_starts_nothing(before: TimeEntryView, after: TimeEntryView)
    requires
        before.commits_to(after),
    ensures
        after.is_running() ==> before.is_running(),
{
}

/// A staged start date that cannot be read leaves the start, and the stop,
/// exactly as they were.
pub proof fn lemma_unreadable_start_date_changes_nothing(
    before: TimeEntryView,
    after: TimeEntryView,
    text: Seq<char>,
)
    requires
        before.change == Some(TimeEntryChangeView::StartedDate(text)),
        date_of_text(text) is None,
        before.commits_to(after),
    ensures
        after.started == before.started,
        after.stopped == before.stopped,
        after.name == before.name,
{
}

/// A timestamp resolved from a local date and clock time shows that date
/// and that time.
pub proof fn lemma_resolution_shows_local_time(
    day: int,
    second_of_day: int,
    nanos: int,
    t: Timestamp,
)
    requires
        0 <= second_of_day < 86_400,
        is_local_resolution(day, second_of_day, nanos, Some(t)),
    ensures
        t.wf(),
        t.local_day() == day,
        t.local_second_of_day() == second_of_day,
        t.nanos == nanos,
{
    let offset = choose|offset: int|
        -86_400 < offset < 86_400 && Some(t) == #[trigger] Timestamp::of_local(
            day,
            second_of_day,
            nanos,
            offset,
        );
    assert(t.local_seconds() == day * 86_400 + second_of_day);
    assert((day * 86_400 + second_of_day) / 86_400 == day && (day * 86_400 + second_of_day)
        % 86_400 == second_of_day) by (nonlinear_arith)
        requires
            0 <= second_of_day < 86_400,
    ;
}

/// Committing a duration sets the stop to the start plus that many seconds,
/// before the start for a negative duration.
pub proof fn lemma_committed_duration(before: TimeEntryView, after: TimeEntryView, text: Seq<char>)
    requires
        before.change == Some(TimeEntryChangeView::Duration(text)),
        before.commits_to(after),
        after != before.unstaged(),
    ensures
        duration_of_text(text) matches Some(seconds) && after.stopped matches Some(stopped)
            && stopped.instant() - before.started.instant() == seconds * 1_000_000_000,
        after.started == before.started,
{
    let (field, query) = commit_plan(before).unwrap();
    let answer = choose|answer: Option<Timestamp>|
        query.answered_by(answer) && after == #[trigger] before.committed(field, answer);
    assert(answer is Some);
}

/// Committing a duration as it is written stores it: where the start and
/// the duration make an instant that has a timestamp, the commit sets the
/// stop to that instant, keeps the start and the name, and drops the staged
/// text. This holds for every whole number of seconds whose magnitude fits
/// 64 bits, negative ones included.
pub proof fn lemma_commit_of_written_duration(
    before: TimeEntryView,
    after: TimeEntryView,
    seconds: int,
)
    requires
        i64::MIN < seconds <= i64::MAX,
        before.change == Some(TimeEntryChangeView::Duration(duration_text(seconds))),
        has_timestamp(before.started.secs + seconds, before.started.nanos as int),
        before.commits_to(after),
    ensures
        before.is_stored(),
        before.stores(after),
        after.name == before.name,
        after.started == before.started,
        after.change is None,
        after.stopped matches Some(t) && t.wf() && t.secs == before.started.secs + seconds
            && t.nanos == before.started.nanos,
{
    crate::duration_text::lemma_duration_text_round_trip(seconds);
    let (field, query) = commit_plan(before)->0;
    assert(query == ZoneQuery::Instant {
        secs: (before.started.secs + seconds) as i64,
        nanos: before.started.nanos,
    });
    assert(query.is_answered());
    let answer = choose|answer: Option<Timestamp>|
        query.answered_by(answer) && after == #[trigger] before.committed(field, answer);
    assert(answer is Some);
    assert(query.answered_by(Some(answer->0)) && after == before.committed(field, Some(answer->0)));
}

} // verus!
