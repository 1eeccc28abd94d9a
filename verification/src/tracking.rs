//! Starting and stopping time entries, and the time tracked for a client.
//!
//! A project has at most one running entry. Starting gives it one unless it
//! has one already; stopping ends the one it has. The time tracked for a
//! client is the sum over all entries of all its projects, where a running
//! entry counts up to the moment of looking.
use vstd::prelude::*;
use crate::entity::Client;
use crate::entity::ClientView;
use crate::entity::Project;
use crate::entity::ProjectView;
use crate::entity::TimeEntry;
use crate::entity::TimeEntryView;
use crate::entity::lemma_view_map_dom;
use crate::entity::lookup;
use crate::entity::put;
use crate::entity::take;
use crate::entity::view_map;
use crate::ident::Id;
use crate::order::ascending;
use crate::order::ascending_ids;
use crate::order::lists;
use crate::order::newest;
use crate::order::newest_id;
use crate::order::sorted_ids;
use crate::time::Duration;
use crate::time::Timestamp;
use crate::time::duration_sum;

verus! {

/// The first of `ids` under which `entries` holds a running entry.
pub open spec fn first_running(entries: Map<Id, TimeEntryView>, ids: Seq<Id>) -> Option<Id>
    decreases ids.len(),
{
    if ids.len() == 0 {
        None
    } else if entries.contains_key(ids[0]) && entries[ids[0]].is_running() {
        Some(ids[0])
    } else {
        first_running(entries, ids.skip(1))
    }
}

/// The time of one entry as a duration.
pub open spec fn elapsed_duration(entry: TimeEntryView, now: Timestamp) -> Duration {
    Duration { nanos: entry.elapsed(now) as i128 }
}

/// `total` and the time of the entries under `ids`, added one by one in
/// that order; `None` once the running total leaves the range.
pub open spec fn add_elapsed(
    total: Option<Duration>,
    entries: Map<Id, TimeEntryView>,
    ids: Seq<Id>,
    now: Timestamp,
) -> Option<Duration>
    decreases ids.len(),
{
    if ids.len() == 0 {
        total
    } else {
        duration_sum(
            add_elapsed(total, entries, ids.drop_last(), now),
            elapsed_duration(entries[ids.last()], now),
        )
    }
}

/// `total` and the time of all entries of the projects under `ids`, project
/// by project in that order.
pub open spec fn add_tracked(
    total: Option<Duration>,
    projects: Map<Id, ProjectView>,
    ids: Seq<Id>,
    now: Timestamp,
) -> Option<Duration>
    decreases ids.len(),
{
    if ids.len() == 0 {
        total
    } else {
        projects[ids.last()].add_tracked_time(
            add_tracked(total, projects, ids.drop_last(), now),
            now,
        )
    }
}

impl ProjectView {
    /// The running entry, the oldest one if several run.
    pub open spec fn active(self) -> Option<Id> {
        first_running(self.time_entries, ascending_ids(self.time_entries.dom()))
    }

    /// The name that a new entry gets: that of the newest entry, or none.
    pub open spec fn next_name(self) -> Seq<char> {
        match newest(self.time_entries.dom()) {
            Some(id) => self.time_entries[id].name,
            None => Seq::empty(),
        }
    }

    /// The project after a start at `now` with the fresh identifier `id`.
    pub open spec fn started(self, id: Id, now: Timestamp) -> ProjectView {
        if self.running() == Set::<Id>::empty() {
            ProjectView {
                time_entries: self.time_entries.insert(
                    id,
                    TimeEntryView {
                        name: self.next_name(),
                        started: now,
                        stopped: None,
                        change: None,
                    },
                ),
                ..self
            }
        } else {
            self
        }
    }

    /// The project after a stop at `now`.
    pub open spec fn stopped(self, now: Timestamp) -> ProjectView {
        match self.active() {
            Some(id) => ProjectView {
                time_entries: self.time_entries.insert(
                    id,
                    TimeEntryView { stopped: Some(now), ..self.time_entries[id] },
                ),
                ..self
            },
            None => self,
        }
    }

    /// `total` and the time of all entries, in order of storage.
    pub open spec fn add_tracked_time(self, total: Option<Duration>, now: Timestamp) -> Option<
        Duration,
    > {
        add_elapsed(total, self.time_entries, ascending_ids(self.time_entries.dom()), now)
    }

    /// The time tracked under this project when looked at at `now`.
    pub open spec fn tracked_time(self, now: Timestamp) -> Option<Duration> {
        self.add_tracked_time(Some(Duration { nanos: 0 }), now)
    }
}

impl ClientView {
    /// The time tracked for this client when looked at at `now`: every
    /// entry of every project, a running one up to `now`. `None` if the sum
    /// leaves the range of a duration on the way.
    pub open spec fn tracked_time(self, now: Timestamp) -> Option<Duration> {
        add_tracked(
            Some(Duration { nanos: 0 }),
            self.projects,
            ascending_ids(self.projects.dom()),
            now,
        )
    }
}

/// If no entry under the first `k` identifiers runs and the next one does,
/// the next one is the first running entry; if none runs at all, there is none.
proof fn lemma_first_running_at(entries: Map<Id, TimeEntryView>, ids: Seq<Id>, k: int)
    requires
        0 <= k <= ids.len(),
        forall|j: int|
            0 <= j < k ==> !(entries.contains_key(ids[j]) && entries[ids[j]].is_running()),
        k < ids.len() ==> entries.contains_key(ids[k]) && entries[ids[k]].is_running(),
    ensures
        first_running(entries, ids) == if k < ids.len() {
            Some(ids[k])
        } else {
            None
        },
    decreases k,
{
    if k == 0 {
    } else {
        let rest = ids.skip(1);
        assert forall|j: int| 0 <= j < k - 1 implies !(entries.contains_key(rest[j])
            && entries[rest[j]].is_running()) by {
            assert(rest[j] == ids[j + 1]);
        }
        if k < ids.len() {
            assert(rest[k - 1] == ids[k]);
        }
        lemma_first_running_at(entries, rest, k - 1);
    }
}

/// The first running entry runs; there is none only if no listed entry runs.
pub proof fn lemma_first_running(entries: Map<Id, TimeEntryView>, ids: Seq<Id>)
    ensures
        match first_running(entries, ids) {
            Some(id) => ids.contains(id) && entries.contains_key(id) && entries[id].is_running(),
            None => forall|j: int|
                0 <= j < ids.len() ==> !(entries.contains_key(#[trigger] ids[j])
                    && entries[ids[j]].is_running()),
        },
    decreases ids.len(),
{
    if ids.len() == 0 {
    } else if entries.contains_key(ids[0]) && entries[ids[0]].is_running() {
        assert(ids.contains(ids[0]));
    } else {
        let rest = ids.skip(1);
        lemma_first_running(entries, rest);
        match first_running(entries, rest) {
            Some(id) => {
                let j = choose|j: int| 0 <= j < rest.len() && rest[j] == id;
                assert(ids[j + 1] == id);
            },
            None => {
                assert forall|j: int| 0 <= j < ids.len() implies !(entries.contains_key(
                    #[trigger] ids[j],
                ) && entries[ids[j]].is_running()) by {
                    if j > 0 {
                        assert(rest[j - 1] == ids[j]);
                    }
                }
            },
        }
    }
}

/// The active entry is a running entry; there is none exactly if no entry runs.
pub proof fn lemma_active(project: ProjectView, ids: Seq<Id>)
    requires
        ids == ascending_ids(project.time_entries.dom()),
        lists(ids, project.time_entries.dom()),
    ensures
        match project.active() {
            Some(id) => project.running().contains(id),
            None => project.running() == Set::<Id>::empty(),
        },
{
    lemma_first_running(project.time_entries, ids);
    match project.active() {
        Some(id) => {},
        None => {
            assert forall|id: Id| !project.running().contains(id) by {
                if project.running().contains(id) {
                    assert(ids.contains(id));
                    let j = choose|j: int| 0 <= j < ids.len() && ids[j] == id;
                    assert(!(project.time_entries.contains_key(ids[j])
                        && project.time_entries[ids[j]].is_running()));
                }
            }
            assert(project.running() =~= Set::<Id>::empty());
        },
    }
}

impl Project {
    /// A project without entries.
    pub fn new(name: String) -> (project: Project)
        ensures
            project@ == (ProjectView { name: name@, time_entries: Map::empty() }),
    {
        let project = Project { name, time_entries: std::collections::BTreeMap::new() };
        assert(project@.time_entries =~= Map::empty());
        project
    }

    /// The running entry, the oldest one if several run.
    pub fn active_entry(&self) -> (active: Option<Id>)
        ensures
            active == self@.active(),
            match active {
                Some(id) => self@.running().contains(id),
                None => self@.running() == Set::<Id>::empty(),
            },
    {
        let ids = sorted_ids(&self.time_entries);
        let mut i: usize = 0;
        let mut active: Option<Id> = None;
        while i < ids.len()
            invariant_except_break
                active is None,
            invariant
                i <= ids.len(),
                forall|j: int|
                    0 <= j < i ==> !(self@.time_entries.contains_key(ids@[j])
                        && self@.time_entries[ids@[j]].is_running()),
            ensures
                i <= ids.len(),
                forall|j: int|
                    0 <= j < i ==> !(self@.time_entries.contains_key(ids@[j])
                        && self@.time_entries[ids@[j]].is_running()),
                match active {
                    Some(id) => i < ids.len() && id == ids@[i as int]
                        && self@.time_entries.contains_key(id)
                        && self@.time_entries[id].is_running(),
                    None => i == ids.len(),
                },
            decreases ids.len() - i,
        {
            let id = ids[i];
            match lookup(&self.time_entries, id) {
                Some(entry) => {
                    if entry.is_active() {
                        active = Some(id);
                        break ;
                    }
                },
                None => {},
            }
            i += 1;
        }
        proof {
            lemma_view_map_dom(self.time_entries@);
            lemma_first_running_at(self@.time_entries, ids@, i as int);
            lemma_active(self@, ids@);
        }
        active
    }

    /// The name that a new entry gets: that of the newest entry, or none.
    pub fn next_entry_name(&self) -> (name: String)
        ensures
            name@ == self@.next_name(),
    {
        proof {
            lemma_view_map_dom(self.time_entries@);
        }
        match newest_id(&self.time_entries) {
            Some(id) => match lookup(&self.time_entries, id) {
                Some(entry) => entry.name.clone(),
                None => String::new(),
            },
            None => String::new(),
        }
    }

    /// Starts an entry under the fresh identifier `id`, unless one runs.
    /// Gives the name and start of the new entry.
    pub fn start(&mut self, id: Id, now: Timestamp) -> (started: bool)
        ensures
            final(self)@ == old(self)@.started(id, now),
            started == (old(self)@.running() == Set::<Id>::empty()),
    {
        match self.active_entry() {
            Some(_) => false,
            None => {
                let name = self.next_entry_name();
                put(&mut self.time_entries, id, TimeEntry::start(name, now));
                true
            },
        }
    }

    /// Stops the running entry. Gives its identifier.
    pub fn stop(&mut self, now: Timestamp) -> (stopped: Option<Id>)
        ensures
            final(self)@ == old(self)@.stopped(now),
            stopped == old(self)@.active(),
            stopped matches Some(id) ==> old(self)@.running().contains(id),
    {
        match self.active_entry() {
            None => None,
            Some(id) => {
                match take(&mut self.time_entries, id) {
                    Some(mut entry) => {
                        entry.stopped = Some(now);
                        put(&mut self.time_entries, id, entry);
                        assert(self@.time_entries =~= old(self)@.stopped(now).time_entries);
                    },
                    None => {},
                }
                Some(id)
            },
        }
    }

    /// Adds the time of all entries to `total`.
    pub fn add_tracked_time(&self, total: Option<Duration>, now: &Timestamp) -> (sum: Option<
        Duration,
    >)
        ensures
            sum == self@.add_tracked_time(total, *now),
    {
        let ids = sorted_ids(&self.time_entries);
        let mut sum = total;
        let mut i: usize = 0;
        while i < ids.len()
            invariant
                i <= ids.len(),
                lists(ids@, self.time_entries@.dom()),
                sum == add_elapsed(total, self@.time_entries, ids@.take(i as int), *now),
            decreases ids.len() - i,
        {
            let id = ids[i];
            proof {
                assert(ids@.contains(id));
                assert(ids@.take(i + 1).drop_last() == ids@.take(i as int));
            }
            match lookup(&self.time_entries, id) {
                Some(entry) => {
                    let d = entry.elapsed(now);
                    sum =
                    match sum {
                        Some(s) => s.checked_add(&d),
                        None => None,
                    };
                },
                None => {},
            }
            i += 1;
        }
        proof {
            lemma_view_map_dom(self.time_entries@);
            assert(ids@.take(i as int) == ids@);
        }
        sum
    }

    /// The time tracked under this project when looked at at `now`.
    pub fn tracked_time(&self, now: &Timestamp) -> (sum: Option<Duration>)
        ensures
            sum == self@.tracked_time(*now),
    {
        self.add_tracked_time(Some(Duration::zero()), now)
    }
}

impl Client {
    /// A client without projects and time blocks.
    pub fn new(name: String) -> (client: Client)
        ensures
            client@ == (ClientView {
                name: name@,
                projects: Map::empty(),
                time_blocks: Map::empty(),
            }),
    {
        let client = Client {
            name,
            projects: std::collections::BTreeMap::new(),
            time_blocks: std::collections::BTreeMap::new(),
        };
        assert(client@.projects =~= Map::empty());
        assert(client@.time_blocks =~= Map::empty());
        client
    }

    /// The time tracked for this client when looked at at `now`.
    pub fn tracked_time(&self, now: &Timestamp) -> (sum: Option<Duration>)
        ensures
            sum == self@.tracked_time(*now),
    {
        let ids = sorted_ids(&self.projects);
        let mut sum = Some(Duration::zero());
        let mut i: usize = 0;
        while i < ids.len()
            invariant
                i <= ids.len(),
                lists(ids@, self.projects@.dom()),
                sum == add_tracked(
                    Some(Duration { nanos: 0 }),
                    self@.projects,
                    ids@.take(i as int),
                    *now,
                ),
            decreases ids.len() - i,
        {
            let id = ids[i];
            proof {
                assert(ids@.contains(id));
                assert(ids@.take(i + 1).drop_last() == ids@.take(i as int));
            }
            match lookup(&self.projects, id) {
                Some(project) => {
                    sum = project.add_tracked_time(sum, now);
                },
                None => {},
            }
            i += 1;
        }
        proof {
            lemma_view_map_dom(self.projects@);
            assert(ids@.take(i as int) == ids@);
        }
        sum
    }
}

/// After a start, exactly one entry of the project runs; after the stop
/// that follows, none does.
pub proof fn lemma_start_then_stop(project: ProjectView, id: Id, now: Timestamp, later: Timestamp)
    requires
        project.wf(),
        project.time_entries.dom().finite(),
    ensures
        exists|running: Id| #[trigger] project.started(id, now).running() == set![running],
        project.started(id, now).wf(),
        project.started(id, now).stopped(later).running() == Set::<Id>::empty(),
        project.started(id, now).stopped(later).wf(),
{
    let started = project.started(id, now);
    lemma_one_runs_after_start(project, id, now);
    let running = choose|running: Id| #[trigger] started.running() == set![running];
    assert(started.running().contains(running));
    lemma_none_runs_after_stop(started, running, later);
}

/// After a start, exactly one entry of the project runs.
pub proof fn lemma_one_runs_after_start(project: ProjectView, id: Id, now: Timestamp)
    requires
        project.wf(),
    ensures
        exists|running: Id| #[trigger] project.started(id, now).running() == set![running],
        project.started(id, now).wf(),
        project.running() == Set::<Id>::empty() ==> project.started(id, now).running() == set![id],
{
    let started = project.started(id, now);
    if project.running() == Set::<Id>::empty() {
        assert forall|e: Id| started.running().contains(e) <==> e == id by {
            if e != id && started.running().contains(e) {
                assert(project.running().contains(e));
            }
        }
        assert(started.running() =~= set![id]);
    } else {
        let witness = choose|e: Id| project.running().contains(e);
        assert(exists|e: Id| project.running().contains(e)) by {
            if forall|e: Id| !project.running().contains(e) {
                assert(project.running() =~= Set::<Id>::empty());
            }
        }
        assert(project.running().contains(witness));
        assert(started.running() =~= set![witness]);
    }
}

/// If exactly one entry runs, none runs after a stop.
pub proof fn lemma_none_runs_after_stop(project: ProjectView, running: Id, later: Timestamp)
    requires
        project.running() == set![running],
        project.time_entries.dom().finite(),
    ensures
        project.active() == Some(running),
        project.stopped(later).running() == Set::<Id>::empty(),
        project.stopped(later).wf(),
{
    let ids = ascending_ids(project.time_entries.dom());
    lemma_ascending_ids_exist(project.time_entries.dom());
    lemma_active(project, ids);
    assert(project.running().contains(running));
    match project.active() {
        Some(id) => {
            assert(project.running().contains(id));
            assert(id == running);
        },
        None => {},
    }
    let stopped = project.stopped(later);
    assert forall|e: Id| !stopped.running().contains(e) by {
        if stopped.running().contains(e) {
            assert(e != running);
            assert(project.running().contains(e));
        }
    }
    assert(stopped.running() =~= Set::<Id>::empty());
}

/// A stop starts nothing: if at most one entry ran before, at most one runs after.
pub proof fn lemma_stop_keeps_one_running(project: ProjectView, now: Timestamp)
    requires
        project.wf(),
    ensures
        project.stopped(now).wf(),
{
    let halted = project.stopped(now);
    assert forall|a: Id, b: Id|
        halted.running().contains(a) && halted.running().contains(b) implies a == b by {
        assert(project.running().contains(a));
        assert(project.running().contains(b));
    }
}

/// A finite set has an order of storage.
pub proof fn lemma_ascending_ids_exist(set: Set<Id>)
    requires
        set.finite(),
    ensures
        ascending(ascending_ids(set)),
        lists(ascending_ids(set), set),
    decreases set.len(),
{
    if set.len() == 0 {
        let none = Seq::<Id>::empty();
        assert forall|id: Id| !set.contains(id) by {
            if set.contains(id) {
                assert(set.len() != 0);
            }
        }
        assert(ascending(none) && lists(none, set));
    } else {
        let top = greatest(set);
        lemma_greatest(set);
        let rest = set.remove(top);
        lemma_ascending_ids_exist(rest);
        let below = ascending_ids(rest);
        let all = below.push(top);
        assert forall|i: int, j: int| 0 <= i < j < all.len() implies all[i] < all[j] by {
            assert(below.contains(all[i]));
            assert(rest.contains(all[i]));
            if j < below.len() {
            } else {
                assert(all[j] == top);
            }
        }
        assert forall|id: Id| all.contains(id) <==> set.contains(id) by {
            if all.contains(id) {
                let i = choose|i: int| 0 <= i < all.len() && all[i] == id;
                if i < below.len() {
                    assert(below.contains(id));
                }
            }
            if set.contains(id) {
                if id == top {
                    assert(all[below.len() as int] == top);
                } else {
                    assert(rest.contains(id));
                    assert(below.contains(id));
                    let i = choose|i: int| 0 <= i < below.len() && below[i] == id;
                    assert(all[i] == id);
                }
            }
        }
        assert(ascending(all) && lists(all, set));
    }
}

/// A greatest member of `set`.
pub open spec fn greatest(set: Set<Id>) -> Id {
    choose|top: Id| set.contains(top) && forall|id: Id| set.contains(id) ==> id <= top
}

/// A finite set with a member has a greatest member.
proof fn lemma_greatest(set: Set<Id>)
    requires
        set.finite(),
        set.len() > 0,
    ensures
        set.contains(greatest(set)),
        forall|id: Id| set.contains(id) ==> id <= greatest(set),
    decreases set.len(),
{
    let one = set.choose();
    let rest = set.remove(one);
    if rest.len() == 0 {
        assert forall|id: Id| set.contains(id) implies id <= one by {
            if id != one {
                assert(rest.contains(id));
            }
        }
        assert(set.contains(one) && forall|id: Id| set.contains(id) ==> id <= one);
    } else {
        lemma_greatest(rest);
        let below = greatest(rest);
        let top = if below < one {
            one
        } else {
            below
        };
        assert forall|id: Id| set.contains(id) implies id <= top by {
            if id != one {
                assert(rest.contains(id));
            }
        }
        assert(set.contains(top) && forall|id: Id| set.contains(id) ==> id <= top);
    }
}

} // verus!
