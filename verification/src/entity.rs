//! The entities of the tree and their mathematical views.
//!
//! A client owns projects and time blocks, a project owns time entries, a
//! time block owns at most one invoice. Each owner keeps what it owns in a
//! map ordered by identifier. The view of an entity replaces every text by
//! its sequence of characters and every ordered map by a [`Map`].
use vstd::prelude::*;
use std::collections::BTreeMap;
use crate::ident::Id;
use crate::time::Duration;
use crate::time::Timestamp;

verus! {

/// An edit of one field of a time entry that was typed but not yet committed.
#[derive(Debug)]
pub enum TimeEntryChange {
    StartedDate(String),
    StartedTime(String),
    StoppedDate(String),
    StoppedTime(String),
    Duration(String),
}

/// A staged change with its text as characters.
pub enum TimeEntryChangeView {
    StartedDate(Seq<char>),
    StartedTime(Seq<char>),
    StoppedDate(Seq<char>),
    StoppedTime(Seq<char>),
    Duration(Seq<char>),
}

impl View for TimeEntryChange {
    type V = TimeEntryChangeView;

    open spec fn view(&self) -> TimeEntryChangeView {
        match *self {
            TimeEntryChange::StartedDate(text) => TimeEntryChangeView::StartedDate(text@),
            TimeEntryChange::StartedTime(text) => TimeEntryChangeView::StartedTime(text@),
            TimeEntryChange::StoppedDate(text) => TimeEntryChangeView::StoppedDate(text@),
            TimeEntryChange::StoppedTime(text) => TimeEntryChangeView::StoppedTime(text@),
            TimeEntryChange::Duration(text) => TimeEntryChangeView::Duration(text@),
        }
    }
}

/// One tracked stretch of time under a project. It runs while `stopped` is `None`.
#[derive(Debug)]
pub struct TimeEntry {
    pub name: String,
    pub started: Timestamp,
    pub stopped: Option<Timestamp>,
    pub change: Option<TimeEntryChange>,
}

/// A time entry seen as mathematics.
pub struct TimeEntryView {
    pub name: Seq<char>,
    pub started: Timestamp,
    pub stopped: Option<Timestamp>,
    pub change: Option<TimeEntryChangeView>,
}

impl View for TimeEntry {
    type V = TimeEntryView;

    open spec fn view(&self) -> TimeEntryView {
        TimeEntryView {
            name: self.name@,
            started: self.started,
            stopped: self.stopped,
            change: match self.change {
                Some(c) => Some(c@),
                None => None,
            },
        }
    }
}

impl TimeEntryView {
    /// Whether the entry has not been stopped.
    pub open spec fn is_running(self) -> bool {
        self.stopped is None
    }

    /// Nanoseconds tracked by this entry when looked at at `now`.
    pub open spec fn elapsed(self, now: Timestamp) -> int {
        match self.stopped {
            Some(stopped) => stopped.instant() - self.started.instant(),
            None => now.instant() - self.started.instant(),
        }
    }
}

/// A project of a client, with the time tracked under it.
#[derive(Debug)]
pub struct Project {
    pub name: String,
    pub time_entries: BTreeMap<Id, TimeEntry>,
}

/// A project seen as mathematics.
pub struct ProjectView {
    pub name: Seq<char>,
    pub time_entries: Map<Id, TimeEntryView>,
}

impl View for Project {
    type V = ProjectView;

    open spec fn view(&self) -> ProjectView {
        ProjectView { name: self.name@, time_entries: view_map(self.time_entries@) }
    }
}

impl ProjectView {
    /// The identifiers of the entries that are running.
    pub open spec fn running(self) -> Set<Id> {
        Set::new(|id: Id| self.time_entries.contains_key(id) && self.time_entries[id].is_running())
    }

    /// At most one entry runs at a time.
    pub open spec fn wf(self) -> bool {
        forall|a: Id, b: Id| self.running().contains(a) && self.running().contains(b) ==> a == b
    }
}

/// Whether a time block is billed, and whether the bill is paid.
#[derive(Debug, Clone, Copy, PartialEq, Eq, Structural)]
pub enum TimeBlockStatus {
    NonBillable,
    Unpaid,
    Paid,
}

/// The invoice of a time block.
#[derive(Debug)]
pub struct Invoice {
    pub id: Id,
    pub custom_id: Option<String>,
    pub url: Option<String>,
}

/// An invoice seen as mathematics.
pub struct InvoiceView {
    pub id: Id,
    pub custom_id: Option<Seq<char>>,
    pub url: Option<Seq<char>>,
}

/// The characters of an optional text.
pub open spec fn text_view(text: Option<String>) -> Option<Seq<char>> {
    match text {
        Some(t) => Some(t@),
        None => None,
    }
}

impl View for Invoice {
    type V = InvoiceView;

    open spec fn view(&self) -> InvoiceView {
        InvoiceView {
            id: self.id,
            custom_id: text_view(self.custom_id),
            url: text_view(self.url),
        }
    }
}

/// Hours set aside for billing, with at most one invoice.
#[derive(Debug)]
pub struct TimeBlock {
    pub name: String,
    pub status: TimeBlockStatus,
    pub duration: Duration,
    pub duration_change: Option<String>,
    pub invoice: Option<Invoice>,
}

/// A time block seen as mathematics.
pub struct TimeBlockView {
    pub name: Seq<char>,
    pub status: TimeBlockStatus,
    pub duration: Duration,
    pub duration_change: Option<Seq<char>>,
    pub invoice: Option<InvoiceView>,
}

impl View for TimeBlock {
    type V = TimeBlockView;

    open spec fn view(&self) -> TimeBlockView {
        TimeBlockView {
            name: self.name@,
            status: self.status,
            duration: self.duration,
            duration_change: text_view(self.duration_change),
            invoice: match self.invoice {
                Some(i) => Some(i@),
                None => None,
            },
        }
    }
}

/// A client, with the projects and time blocks it owns.
#[derive(Debug)]
pub struct Client {
    pub name: String,
    pub projects: BTreeMap<Id, Project>,
    pub time_blocks: BTreeMap<Id, TimeBlock>,
}

/// A client seen as mathematics.
pub struct ClientView {
    pub name: Seq<char>,
    pub projects: Map<Id, ProjectView>,
    pub time_blocks: Map<Id, TimeBlockView>,
}

impl View for Client {
    type V = ClientView;

    open spec fn view(&self) -> ClientView {
        ClientView {
            name: self.name@,
            projects: view_map(self.projects@),
            time_blocks: view_map(self.time_blocks@),
        }
    }
}

/// The tree as a page holds it: clients by identifier.
pub type Tree = BTreeMap<Id, Client>;

/// The tree seen as mathematics.
pub type TreeView = Map<Id, ClientView>;

/// The view of a map of entities: the same keys, each entity by its view.
pub open spec fn view_map<T: View>(m: Map<Id, T>) -> Map<Id, T::V> {
    Map::new(|id: Id| m.contains_key(id), |id: Id| m[id]@)
}

/// The view of a map has the keys of the map.
pub proof fn lemma_view_map_dom<T: View>(m: Map<Id, T>)
    ensures
        view_map(m).dom() == m.dom(),
{
    assert(view_map(m).dom() =~= m.dom());
}

/// The view of a map with one more entity.
pub proof fn lemma_view_map_insert<T: View>(m: Map<Id, T>, id: Id, value: T)
    ensures
        view_map(m.insert(id, value)) == view_map(m).insert(id, value@),
{
    assert(view_map(m.insert(id, value)) =~= view_map(m).insert(id, value@));
}

/// The view of a map with one entity less.
pub proof fn lemma_view_map_remove<T: View>(m: Map<Id, T>, id: Id)
    ensures
        view_map(m.remove(id)) == view_map(m).remove(id),
{
    assert(view_map(m.remove(id)) =~= view_map(m).remove(id));
}

/// Takes the entity stored under `id` out of the map.
pub fn take<T: View>(m: &mut BTreeMap<Id, T>, id: Id) -> (taken: Option<T>)
    ensures
        match taken {
            Some(value) => old(m)@.contains_key(id) && old(m)@[id] == value,
            None => !old(m)@.contains_key(id),
        },
        final(m)@ == old(m)@.remove(id),
        view_map(final(m)@) == view_map(old(m)@).remove(id),
{
    let taken = m.remove(&id);
    proof {
        lemma_view_map_remove(old(m)@, id);
    }
    taken
}

/// Stores `value` under `id`, in place of what was there.
pub fn put<T: View>(m: &mut BTreeMap<Id, T>, id: Id, value: T)
    ensures
        final(m)@ == old(m)@.insert(id, value),
        view_map(final(m)@) == view_map(old(m)@).insert(id, value@),
{
    m.insert(id, value);
    proof {
        lemma_view_map_insert(old(m)@, id, value);
    }
}

/// Looks up the entity stored under `id`.
pub fn lookup<T: View>(m: &BTreeMap<Id, T>, id: Id) -> (found: Option<&T>)
    ensures
        match found {
            Some(value) => m@.contains_key(id) && m@[id] == *value && view_map(m@).contains_key(id)
                && view_map(m@)[id] == value@,
            None => !m@.contains_key(id) && !view_map(m@).contains_key(id),
        },
{
    m.get(&id)
}

} // verus!
