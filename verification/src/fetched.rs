//! From what a query returned to the tree of a page.
//!
//! The remote store names every entity by the text of its identifier and
//! gives every time as text. Reading turns the texts into identifiers and
//! timestamps and files each entity under its owner. An answer in which a
//! text cannot be read is refused as a whole.
use vstd::prelude::*;
use std::collections::BTreeMap;
use crate::entity::Client;
use crate::entity::ClientView;
use crate::entity::Invoice;
use crate::entity::InvoiceView;
use crate::entity::Project;
use crate::entity::ProjectView;
use crate::entity::TimeBlock;
use crate::entity::TimeBlockStatus;
use crate::entity::TimeBlockView;
use crate::entity::TimeEntry;
use crate::entity::TimeEntryView;
use crate::entity::Tree;
use crate::entity::TreeView;
use crate::entity::put;
use crate::entity::text_view;
use crate::entity::view_map;
use crate::graphql::GraphQLError;
use crate::graphql::queries::clients_with_projects;
use crate::graphql::queries::clients_with_projects_with_time_entries;
use crate::graphql::queries::clients_with_time_blocks_and_time_entries;
use crate::graphql::types::DateTime;
use crate::ident::Id;
use crate::ident::id_of_text;
use crate::ident::parse_id;
use crate::time::Duration;
use crate::time::Timestamp;
use crate::time::has_timestamp;
use crate::time::instant_of_text;
use crate::time::parse_instant_text;
use crate::time::timestamp_at;
use crate::tree::tree_view;

verus! {

/// What the error of an answer that could not be read says.
pub open spec fn unreadable() -> Seq<char> {
    "the answer of the remote store could not be read"@
}

/// Whether `error` is the error of an answer that could not be read.
pub open spec fn is_unreadable(error: GraphQLError) -> bool {
    error matches GraphQLError::DecodeError(text) && text@ == unreadable()
}

/// The error of an answer that could not be read.
fn unreadable_error() -> (error: GraphQLError)
    ensures
        is_unreadable(error),
{
    GraphQLError::DecodeError("the answer of the remote store could not be read".to_owned())
}

/// Whether `t` is the instant that `text` denotes, in the local zone.
pub open spec fn reads_time(text: Seq<char>, t: Timestamp) -> bool {
    t.wf() && instant_of_text(text) == Some((t.secs as int, t.nanos as int))
}

/// Whether `t` is the stop that `text` denotes: none for none.
pub open spec fn reads_stop(text: Option<DateTime>, t: Option<Timestamp>) -> bool {
    match (text, t) {
        (Some(text), Some(t)) => reads_time(text.0@, t),
        (None, None) => true,
        _ => false,
    }
}

/// Whether a start and a stop can be read: the start denotes an instant
/// that has a timestamp, and so does the stop if there is one.
pub open spec fn times_readable(started: DateTime, stopped: Option<DateTime>) -> bool {
    &&& is_time_text(started.0@)
    &&& stopped matches Some(text) ==> is_time_text(text.0@)
}

/// Whether `text` denotes an instant that has a timestamp.
pub open spec fn is_time_text(text: Seq<char>) -> bool {
    instant_of_text(text) matches Some((secs, nanos)) && has_timestamp(secs, nanos)
}

/// Reads a time of the remote store as a timestamp of the local zone.
/// There is one exactly where the text denotes an instant that has a
/// timestamp; it is at that instant.
pub fn read_time(text: &DateTime) -> (t: Option<Timestamp>)
    ensures
        t matches Some(t) ==> reads_time(text.0@, t),
        t is Some <==> is_time_text(text.0@),
        instant_of_text(text.0@) is None ==> t is None,
{
    match parse_instant_text(text.0.as_str()) {
        Some((secs, nanos)) => timestamp_at(secs, nanos),
        None => None,
    }
}

/// Reads a stop, which a running entry does not have. The outer `None`
/// says that there is a text and that it could not be read: a missing stop
/// is always read, a stop that is there exactly where its text denotes an
/// instant that has a timestamp.
pub fn read_stop(text: &Option<DateTime>) -> (t: Option<Option<Timestamp>>)
    ensures
        t matches Some(t) ==> reads_stop(*text, t),
        t is Some <==> (text matches Some(d) ==> is_time_text(d.0@)),
        (text matches Some(d) && instant_of_text(d.0@) is None) ==> t is None,
{
    match text {
        Some(d) => match read_time(d) {
            Some(t) => Some(Some(t)),
            None => None,
        },
        None => Some(None),
    }
}

// ------ clients with projects ------

/// The projects that `records` describe, the later record winning where two
/// name the same project; `None` if an identifier cannot be read.
pub open spec fn named_projects(records: Seq<clients_with_projects::Project>) -> Option<
    Map<Id, ProjectView>,
>
    decreases records.len(),
{
    if records.len() == 0 {
        Some(Map::empty())
    } else {
        match (named_projects(records.drop_last()), id_of_text(records.last().id@)) {
            (Some(projects), Some(id)) => Some(
                projects.insert(
                    id,
                    ProjectView { name: records.last().name@, time_entries: Map::empty() },
                ),
            ),
            _ => None,
        }
    }
}

/// The clients that `records` describe, the later record winning where two
/// name the same client and missing records left out; `None` if an
/// identifier cannot be read.
pub open spec fn clients_with_named_projects(
    records: Seq<Option<clients_with_projects::Client>>,
) -> Option<TreeView>
    decreases records.len(),
{
    if records.len() == 0 {
        Some(Map::empty())
    } else {
        match (clients_with_named_projects(records.drop_last()), records.last()) {
            (Some(clients), None) => Some(clients),
            (Some(clients), Some(record)) => match (
                id_of_text(record.id@),
                named_projects(record.projects@),
            ) {
                (Some(id), Some(projects)) => Some(
                    clients.insert(
                        id,
                        ClientView { name: record.name@, projects, time_blocks: Map::empty() },
                    ),
                ),
                _ => None,
            },
            (None, _) => None,
        }
    }
}

/// The tree that the answer describes.
pub open spec fn tree_with_projects(query: clients_with_projects::Query) -> Option<TreeView> {
    match query.query_client {
        Some(records) => clients_with_named_projects(records@),
        None => None,
    }
}

/// Reads the projects of one client.
fn read_named_projects(records: &Vec<clients_with_projects::Project>) -> (projects: Option<
    BTreeMap<Id, Project>,
>)
    ensures
        match projects {
            Some(p) => named_projects(records@) == Some(view_map(p@)),
            None => named_projects(records@) is None,
        },
{
    let mut projects: BTreeMap<Id, Project> = BTreeMap::new();
    assert(view_map(projects@) =~= Map::empty());
    let mut i: usize = 0;
    while i < records.len()
        invariant
            i <= records.len(),
            named_projects(records@.take(i as int)) == Some(view_map(projects@)),
        decreases records.len() - i,
    {
        let record = &records[i];
        proof {
            assert(records@.take(i + 1).drop_last() == records@.take(i as int));
            assert(records@.take(i + 1).last() == records@[i as int]);
        }
        match parse_id(record.id.as_str()) {
            Some(id) => {
                put(&mut projects, id, Project::new(record.name.clone()));
            },
            None => {
                proof {
                    lemma_named_projects_fail(records@, i as int);
                }
                return None;
            },
        }
        i += 1;
    }
    proof {
        assert(records@.take(i as int) == records@);
    }
    Some(projects)
}

/// If the projects up to some record cannot be read, none of the longer
/// lists can.
proof fn lemma_named_projects_fail(records: Seq<clients_with_projects::Project>, i: int)
    requires
        0 <= i < records.len(),
        named_projects(records.take(i + 1)) is None,
    ensures
        named_projects(records) is None,
    decreases records.len() - i,
{
    if i + 1 == records.len() {
        assert(records.take(i + 1) == records);
    } else {
        assert(records.take(i + 2).drop_last() == records.take(i + 1));
        lemma_named_projects_fail(records, i + 1);
    }
}

/// If the clients up to some record cannot be read, none of the longer
/// lists can.
proof fn lemma_clients_with_named_projects_fail(
    records: Seq<Option<clients_with_projects::Client>>,
    i: int,
)
    requires
        0 <= i < records.len(),
        clients_with_named_projects(records.take(i + 1)) is None,
    ensures
        clients_with_named_projects(records) is None,
    decreases records.len() - i,
{
    if i + 1 == records.len() {
        assert(records.take(i + 1) == records);
    } else {
        assert(records.take(i + 2).drop_last() == records.take(i + 1));
        lemma_clients_with_named_projects_fail(records, i + 1);
    }
}

/// Reads the answer to the query for clients with their projects.
pub fn read_clients_with_projects(query: &clients_with_projects::Query) -> (tree: Result<
    Tree,
    GraphQLError,
>)
    ensures
        match tree {
            Ok(tree) => tree_with_projects(*query) == Some(tree_view(&tree)),
            Err(error) => tree_with_projects(*query) is None && is_unreadable(error),
        },
{
    let records = match &query.query_client {
        Some(records) => records,
        None => {
            return Err(unreadable_error());
        },
    };
    let mut tree: Tree = BTreeMap::new();
    assert(tree_view(&tree) =~= Map::empty());
    let mut i: usize = 0;
    while i < records.len()
        invariant
            i <= records.len(),
            query.query_client == Some(*records),
            clients_with_named_projects(records@.take(i as int)) == Some(tree_view(&tree)),
        decreases records.len() - i,
    {
        proof {
            assert(records@.take(i + 1).drop_last() == records@.take(i as int));
            assert(records@.take(i + 1).last() == records@[i as int]);
        }
        match &records[i] {
            Some(record) => {
                match (parse_id(record.id.as_str()), read_named_projects(&record.projects)) {
                    (Some(id), Some(projects)) => {
                        let client = Client {
                            name: record.name.clone(),
                            projects,
                            time_blocks: BTreeMap::new(),
                        };
                        assert(client@.time_blocks =~= Map::empty());
                        put(&mut tree, id, client);
                    },
                    _ => {
                        proof {
                            lemma_clients_with_named_projects_fail(records@, i as int);
                        }
                        return Err(unreadable_error());
                    },
                }
            },
            None => {},
        }
        i += 1;
    }
    proof {
        assert(records@.take(i as int) == records@);
    }
    Ok(tree)
}

// ------ clients with projects with time entries ------

/// Whether `entry` under `id` is what `record` describes.
pub open spec fn reads_entry(
    record: clients_with_projects_with_time_entries::TimeEntry,
    id: Id,
    entry: TimeEntryView,
) -> bool {
    &&& id_of_text(record.id@) == Some(id)
    &&& entry.name == record.name@
    &&& reads_time(record.started.0@, entry.started)
    &&& reads_stop(record.stopped, entry.stopped)
    &&& entry.change is None
}

/// Whether `entries` is `fewer` with `entry` filed under `id`, as `record` describes it.
pub open spec fn files_entry(
    record: clients_with_projects_with_time_entries::TimeEntry,
    fewer: Map<Id, TimeEntryView>,
    id: Id,
    entry: TimeEntryView,
    entries: Map<Id, TimeEntryView>,
) -> bool {
    reads_entry(record, id, entry) && entries == fewer.insert(id, entry)
}

/// Whether `entries` are what `records` describe, the later record winning
/// where two name the same entry.
pub open spec fn reads_entries(
    records: Seq<clients_with_projects_with_time_entries::TimeEntry>,
    entries: Map<Id, TimeEntryView>,
) -> bool
    decreases records.len(),
{
    if records.len() == 0 {
        entries == Map::<Id, TimeEntryView>::empty()
    } else {
        exists|fewer: Map<Id, TimeEntryView>, id: Id, entry: TimeEntryView|
            #[trigger] files_entry(records.last(), fewer, id, entry, entries) && reads_entries(
                records.drop_last(),
                fewer,
            )
    }
}

/// Whether every text in `records` can be read.
pub open spec fn entries_readable(
    records: Seq<clients_with_projects_with_time_entries::TimeEntry>,
) -> bool {
    forall|i: int|
        0 <= i < records.len() ==> id_of_text((#[trigger] records[i]).id@) is Some
            && times_readable(records[i].started, records[i].stopped)
}

/// Whether `project` under `id` is what `record` describes.
pub open spec fn reads_project(
    record: clients_with_projects_with_time_entries::Project,
    id: Id,
    project: ProjectView,
) -> bool {
    &&& id_of_text(record.id@) == Some(id)
    &&& project.name == record.name@
    &&& reads_entries(record.time_entries@, project.time_entries)
}

/// Whether `projects` is `fewer` with `project` filed under `id`, as `record` describes it.
pub open spec fn files_project(
    record: clients_with_projects_with_time_entries::Project,
    fewer: Map<Id, ProjectView>,
    id: Id,
    project: ProjectView,
    projects: Map<Id, ProjectView>,
) -> bool {
    reads_project(record, id, project) && projects == fewer.insert(id, project)
}

/// Whether `projects` are what `records` describe.
pub open spec fn reads_projects(
    records: Seq<clients_with_projects_with_time_entries::Project>,
    projects: Map<Id, ProjectView>,
) -> bool
    decreases records.len(),
{
    if records.len() == 0 {
        projects == Map::<Id, ProjectView>::empty()
    } else {
        exists|fewer: Map<Id, ProjectView>, id: Id, project: ProjectView|
            #[trigger] files_project(records.last(), fewer, id, project, projects)
                && reads_projects(records.drop_last(), fewer)
    }
}

/// Whether every text in `records` can be read.
pub open spec fn projects_readable(
    records: Seq<clients_with_projects_with_time_entries::Project>,
) -> bool {
    forall|i: int|
        0 <= i < records.len() ==> id_of_text((#[trigger] records[i]).id@) is Some
            && entries_readable(records[i].time_entries@)
}

/// Whether `client` under `id` is what `record` describes.
pub open spec fn reads_client(
    record: clients_with_projects_with_time_entries::Client,
    id: Id,
    client: ClientView,
) -> bool {
    &&& id_of_text(record.id@) == Some(id)
    &&& client.name == record.name@
    &&& reads_projects(record.projects@, client.projects)
    &&& client.time_blocks == Map::<Id, TimeBlockView>::empty()
}

/// Whether `clients` is `fewer` with `client` filed under `id`, as `record` describes it.
pub open spec fn files_client(
    record: clients_with_projects_with_time_entries::Client,
    fewer: TreeView,
    id: Id,
    client: ClientView,
    clients: TreeView,
) -> bool {
    reads_client(record, id, client) && clients == fewer.insert(id, client)
}

/// Whether `clients` are what `records` describe, missing records left out.
pub open spec fn reads_clients(
    records: Seq<Option<clients_with_projects_with_time_entries::Client>>,
    clients: TreeView,
) -> bool
    decreases records.len(),
{
    if records.len() == 0 {
        clients == Map::<Id, ClientView>::empty()
    } else {
        match records.last() {
            Some(record) => exists|fewer: TreeView, id: Id, client: ClientView|
                #[trigger] files_client(record, fewer, id, client, clients) && reads_clients(
                    records.drop_last(),
                    fewer,
                ),
            None => reads_clients(records.drop_last(), clients),
        }
    }
}

/// Whether every text in `records` can be read.
pub open spec fn clients_readable(
    records: Seq<Option<clients_with_projects_with_time_entries::Client>>,
) -> bool {
    forall|i: int|
        0 <= i < records.len() ==> ((#[trigger] records[i]) matches Some(record) ==> id_of_text(
            record.id@,
        ) is Some && projects_readable(record.projects@))
}

/// Reads the time entries of one project.
fn read_entries(records: &Vec<clients_with_projects_with_time_entries::TimeEntry>) -> (entries:
    Option<BTreeMap<Id, TimeEntry>>)
    ensures
        entries matches Some(e) ==> reads_entries(records@, view_map(e@)),
        entries is Some <==> entries_readable(records@),
{
    let mut entries: BTreeMap<Id, TimeEntry> = BTreeMap::new();
    assert(view_map(entries@) =~= Map::empty());
    let mut i: usize = 0;
    while i < records.len()
        invariant
            i <= records.len(),
            reads_entries(records@.take(i as int), view_map(entries@)),
            entries_readable(records@.take(i as int)),
        decreases records.len() - i,
    {
        let record = &records[i];
        let ghost fewer = view_map(entries@);
        proof {
            assert(records@.take(i + 1).drop_last() == records@.take(i as int));
            assert(records@.take(i + 1).last() == records@[i as int]);
        }
        match (
            parse_id(record.id.as_str()),
            read_time(&record.started),
            read_stop(&record.stopped),
        ) {
            (Some(id), Some(started), Some(stopped)) => {
                let entry = TimeEntry { name: record.name.clone(), started, stopped, change: None };
                put(&mut entries, id, entry);
                proof {
                    assert(files_entry(records@[i as int], fewer, id, entry@, view_map(entries@)));
                    assert forall|k: int| 0 <= k < i + 1 implies id_of_text(
                        (#[trigger] records@.take(i + 1)[k]).id@,
                    ) is Some && times_readable(
                        records@.take(i + 1)[k].started,
                        records@.take(i + 1)[k].stopped,
                    ) by {
                        if k < i {
                            assert(records@.take(i as int)[k] == records@.take(i + 1)[k]);
                        }
                    }
                }
            },
            _ => {
                assert(records@[i as int] == *record);
                return None;
            },
        }
        i += 1;
    }
    proof {
        assert(records@.take(i as int) == records@);
    }
    Some(entries)
}

/// Reads the projects of one client with their time entries.
fn read_projects(records: &Vec<clients_with_projects_with_time_entries::Project>) -> (projects:
    Option<BTreeMap<Id, Project>>)
    ensures
        projects matches Some(p) ==> reads_projects(records@, view_map(p@)),
        projects is Some <==> projects_readable(records@),
{
    let mut projects: BTreeMap<Id, Project> = BTreeMap::new();
    assert(view_map(projects@) =~= Map::empty());
    let mut i: usize = 0;
    while i < records.len()
        invariant
            i <= records.len(),
            reads_projects(records@.take(i as int), view_map(projects@)),
            projects_readable(records@.take(i as int)),
        decreases records.len() - i,
    {
        let record = &records[i];
        let ghost fewer = view_map(projects@);
        proof {
            assert(records@.take(i + 1).drop_last() == records@.take(i as int));
            assert(records@.take(i + 1).last() == records@[i as int]);
        }
        match (parse_id(record.id.as_str()), read_entries(&record.time_entries)) {
            (Some(id), Some(time_entries)) => {
                let project = Project { name: record.name.clone(), time_entries };
                put(&mut projects, id, project);
                proof {
                    assert(files_project(
                        records@[i as int],
                        fewer,
                        id,
                        project@,
                        view_map(projects@),
                    ));
                    assert forall|k: int| 0 <= k < i + 1 implies id_of_text(
                        (#[trigger] records@.take(i + 1)[k]).id@,
                    ) is Some && entries_readable(records@.take(i + 1)[k].time_entries@) by {
                        if k < i {
                            assert(records@.take(i as int)[k] == records@.take(i + 1)[k]);
                        }
                    }
                }
            },
            _ => {
                assert(records@[i as int] == *record);
                return None;
            },
        }
        i += 1;
    }
    proof {
        assert(records@.take(i as int) == records@);
    }
    Some(projects)
}

/// Reads the answer to the query for clients with their projects and time
/// entries.
///
/// The answer is accepted exactly where it has a list of clients in which
/// every identifier can be read and every time denotes an instant that has
/// a timestamp. Each entry of the tree is then at the instants that the
/// answer gives, with the offsets that the local zone has there.
pub fn read_clients_with_time_entries(
    query: &clients_with_projects_with_time_entries::Query,
) -> (tree: Result<Tree, GraphQLError>)
    ensures
        match tree {
            Ok(tree) => query.query_client matches Some(records) && reads_clients(
                records@,
                tree_view(&tree),
            ),
            Err(error) => is_unreadable(error),
        },
        tree is Ok <==> (query.query_client matches Some(records) && clients_readable(records@)),
{
    let records = match &query.query_client {
        Some(records) => records,
        None => {
            return Err(unreadable_error());
        },
    };
    let mut tree: Tree = BTreeMap::new();
    assert(tree_view(&tree) =~= Map::empty());
    let mut i: usize = 0;
    while i < records.len()
        invariant
            i <= records.len(),
            query.query_client == Some(*records),
            reads_clients(records@.take(i as int), tree_view(&tree)),
            clients_readable(records@.take(i as int)),
        decreases records.len() - i,
    {
        let ghost fewer = tree_view(&tree);
        proof {
            assert(records@.take(i + 1).drop_last() == records@.take(i as int));
            assert(records@.take(i + 1).last() == records@[i as int]);
        }
        match &records[i] {
            Some(record) => {
                match (parse_id(record.id.as_str()), read_projects(&record.projects)) {
                    (Some(id), Some(projects)) => {
                        let client = Client {
                            name: record.name.clone(),
                            projects,
                            time_blocks: BTreeMap::new(),
                        };
                        assert(client@.time_blocks =~= Map::empty());
                        put(&mut tree, id, client);
                        proof {
                            assert(files_client(*record, fewer, id, client@, tree_view(&tree)));
                        }
                    },
                    _ => {
                        assert(records@[i as int] == Some(*record));
                        return Err(unreadable_error());
                    },
                }
            },
            None => {},
        }
        proof {
            assert forall|k: int| 0 <= k < i + 1 implies ((#[trigger] records@.take(i + 1)[k])
                matches Some(record) ==> id_of_text(record.id@) is Some && projects_readable(
                record.projects@,
            )) by {
                if k < i {
                    assert(records@.take(i as int)[k] == records@.take(i + 1)[k]);
                }
            }
        }
        i += 1;
    }
    proof {
        assert(records@.take(i as int) == records@);
    }
    Ok(tree)
}

// ------ clients with time blocks and time entries ------

/// The billing status that a status of the remote store stands for.
pub open spec fn status_of(status: clients_with_time_blocks_and_time_entries::TimeBlockStatus)
    -> TimeBlockStatus {
    match status {
        clients_with_time_blocks_and_time_entries::TimeBlockStatus::NonBillable =>
            TimeBlockStatus::NonBillable,
        clients_with_time_blocks_and_time_entries::TimeBlockStatus::Unpaid =>
            TimeBlockStatus::Unpaid,
        clients_with_time_blocks_and_time_entries::TimeBlockStatus::Paid => TimeBlockStatus::Paid,
    }
}

/// The invoice that `record` describes; the outer `None` says that its
/// identifier cannot be read.
pub open spec fn invoice_of(record: Option<clients_with_time_blocks_and_time_entries::Invoice>)
    -> Option<Option<InvoiceView>> {
    match record {
        Some(invoice) => match id_of_text(invoice.id@) {
            Some(id) => Some(
                Some(
                    InvoiceView {
                        id,
                        custom_id: text_view(invoice.custom_id),
                        url: text_view(invoice.url),
                    },
                ),
            ),
            None => None,
        },
        None => Some(None),
    }
}

/// The time blocks that `records` describe, the later record winning where
/// two name the same block; `None` if an identifier cannot be read.
pub open spec fn blocks_of(records: Seq<clients_with_time_blocks_and_time_entries::TimeBlock>)
    -> Option<Map<Id, TimeBlockView>>
    decreases records.len(),
{
    if records.len() == 0 {
        Some(Map::empty())
    } else {
        let record = records.last();
        match (blocks_of(records.drop_last()), id_of_text(record.id@), invoice_of(record.invoice)) {
            (Some(blocks), Some(id), Some(invoice)) => Some(
                blocks.insert(
                    id,
                    TimeBlockView {
                        name: record.name@,
                        status: status_of(record.status),
                        duration: Duration { nanos: (record.duration * 1_000_000_000) as i128 },
                        duration_change: None,
                        invoice,
                    },
                ),
            ),
            _ => None,
        }
    }
}

/// Whether `entries` holds the times of `records`, each under its position
/// in the list and without a name.
pub open spec fn reads_times(
    records: Seq<clients_with_time_blocks_and_time_entries::TimeEntry>,
    entries: Map<Id, TimeEntryView>,
) -> bool {
    &&& forall|id: Id| entries.contains_key(id) <==> id < records.len()
    &&& forall|id: Id|
        id < records.len() ==> {
            let entry = #[trigger] entries[id];
            &&& entry.name == Seq::<char>::empty()
            &&& reads_time(records[id as int].started.0@, entry.started)
            &&& reads_stop(records[id as int].stopped, entry.stopped)
            &&& entry.change is None
        }
}

/// Whether every time in `records` can be read.
pub open spec fn all_times_readable(
    records: Seq<clients_with_time_blocks_and_time_entries::TimeEntry>,
) -> bool {
    forall|i: int|
        0 <= i < records.len() ==> times_readable(
            (#[trigger] records[i]).started,
            records[i].stopped,
        )
}

/// Whether `projects` holds the times of `records`, each project under its
/// position in the list and without a name.
pub open spec fn reads_untitled_projects(
    records: Seq<clients_with_time_blocks_and_time_entries::Project>,
    projects: Map<Id, ProjectView>,
) -> bool {
    &&& forall|id: Id| projects.contains_key(id) <==> id < records.len()
    &&& forall|id: Id|
        id < records.len() ==> {
            let project = #[trigger] projects[id];
            &&& project.name == Seq::<char>::empty()
            &&& reads_times(records[id as int].time_entries@, project.time_entries)
        }
}

/// Whether every time in `records` can be read.
pub open spec fn untitled_projects_readable(
    records: Seq<clients_with_time_blocks_and_time_entries::Project>,
) -> bool {
    forall|i: int|
        0 <= i < records.len() ==> all_times_readable((#[trigger] records[i]).time_entries@)
}

/// Whether `client` under `id` is what `record` describes.
pub open spec fn reads_billed_client(
    record: clients_with_time_blocks_and_time_entries::Client,
    id: Id,
    client: ClientView,
) -> bool {
    &&& id_of_text(record.id@) == Some(id)
    &&& client.name == record.name@
    &&& blocks_of(record.time_blocks@) == Some(client.time_blocks)
    &&& reads_untitled_projects(record.projects@, client.projects)
}

/// Whether `clients` is `fewer` with `client` filed under `id`, as `record` describes it.
pub open spec fn files_billed_client(
    record: clients_with_time_blocks_and_time_entries::Client,
    fewer: TreeView,
    id: Id,
    client: ClientView,
    clients: TreeView,
) -> bool {
    reads_billed_client(record, id, client) && clients == fewer.insert(id, client)
}

/// Whether `clients` are what `records` describe, missing records left out.
pub open spec fn reads_billed_clients(
    records: Seq<Option<clients_with_time_blocks_and_time_entries::Client>>,
    clients: TreeView,
) -> bool
    decreases records.len(),
{
    if records.len() == 0 {
        clients == Map::<Id, ClientView>::empty()
    } else {
        match records.last() {
            Some(record) => exists|fewer: TreeView, id: Id, client: ClientView|
                #[trigger] files_billed_client(record, fewer, id, client, clients)
                    && reads_billed_clients(records.drop_last(), fewer),
            None => reads_billed_clients(records.drop_last(), clients),
        }
    }
}

/// Whether every text in `records` can be read.
pub open spec fn billed_clients_readable(
    records: Seq<Option<clients_with_time_blocks_and_time_entries::Client>>,
) -> bool {
    forall|i: int|
        0 <= i < records.len() ==> ((#[trigger] records[i]) matches Some(record) ==> {
            &&& id_of_text(record.id@) is Some
            &&& blocks_of(record.time_blocks@) is Some
            &&& untitled_projects_readable(record.projects@)
        })
}

/// Reads a billing status.
fn read_status(status: clients_with_time_blocks_and_time_entries::TimeBlockStatus) -> (read:
    TimeBlockStatus)
    ensures
        read == status_of(status),
{
    match status {
        clients_with_time_blocks_and_time_entries::TimeBlockStatus::NonBillable =>
            TimeBlockStatus::NonBillable,
        clients_with_time_blocks_and_time_entries::TimeBlockStatus::Unpaid =>
            TimeBlockStatus::Unpaid,
        clients_with_time_blocks_and_time_entries::TimeBlockStatus::Paid => TimeBlockStatus::Paid,
    }
}

/// A copy of a text that may be missing.
fn clone_text(text: &Option<String>) -> (copy: Option<String>)
    ensures
        text_view(copy) == text_view(*text),
{
    match text {
        Some(t) => Some(t.clone()),
        None => None,
    }
}

/// Reads the invoice of one time block.
fn read_invoice(record: &Option<clients_with_time_blocks_and_time_entries::Invoice>) -> (invoice:
    Option<Option<Invoice>>)
    ensures
        match invoice {
            Some(Some(i)) => invoice_of(*record) == Some(Some(i@)),
            Some(None) => invoice_of(*record) == Some(None::<InvoiceView>),
            None => invoice_of(*record) is None,
        },
{
    match record {
        Some(invoice) => match parse_id(invoice.id.as_str()) {
            Some(id) => Some(
                Some(
                    Invoice {
                        id,
                        custom_id: clone_text(&invoice.custom_id),
                        url: clone_text(&invoice.url),
                    },
                ),
            ),
            None => None,
        },
        None => Some(None),
    }
}

/// If the time blocks up to some record cannot be read, none of the longer
/// lists can.
proof fn lemma_blocks_of_fail(
    records: Seq<clients_with_time_blocks_and_time_entries::TimeBlock>,
    i: int,
)
    requires
        0 <= i < records.len(),
        blocks_of(records.take(i + 1)) is None,
    ensures
        blocks_of(records) is None,
    decreases records.len() - i,
{
    if i + 1 == records.len() {
        assert(records.take(i + 1) == records);
    } else {
        assert(records.take(i + 2).drop_last() == records.take(i + 1));
        lemma_blocks_of_fail(records, i + 1);
    }
}

/// Reads the time blocks of one client.
fn read_blocks(records: &Vec<clients_with_time_blocks_and_time_entries::TimeBlock>) -> (blocks:
    Option<BTreeMap<Id, TimeBlock>>)
    ensures
        match blocks {
            Some(b) => blocks_of(records@) == Some(view_map(b@)),
            None => blocks_of(records@) is None,
        },
{
    let mut blocks: BTreeMap<Id, TimeBlock> = BTreeMap::new();
    assert(view_map(blocks@) =~= Map::empty());
    let mut i: usize = 0;
    while i < records.len()
        invariant
            i <= records.len(),
            blocks_of(records@.take(i as int)) == Some(view_map(blocks@)),
        decreases records.len() - i,
    {
        let record = &records[i];
        proof {
            assert(records@.take(i + 1).drop_last() == records@.take(i as int));
            assert(records@.take(i + 1).last() == records@[i as int]);
        }
        match (parse_id(record.id.as_str()), read_invoice(&record.invoice)) {
            (Some(id), Some(invoice)) => {
                let block = TimeBlock {
                    name: record.name.clone(),
                    status: read_status(record.status),
                    duration: Duration::from_seconds(record.duration as i64),
                    duration_change: None,
                    invoice,
                };
                put(&mut blocks, id, block);
            },
            _ => {
                proof {
                    lemma_blocks_of_fail(records@, i as int);
                }
                return None;
            },
        }
        i += 1;
    }
    proof {
        assert(records@.take(i as int) == records@);
    }
    Some(blocks)
}

/// Reads the times of the entries of one project.
fn read_times(records: &Vec<clients_with_time_blocks_and_time_entries::TimeEntry>) -> (entries:
    Option<BTreeMap<Id, TimeEntry>>)
    ensures
        entries matches Some(e) ==> reads_times(records@, view_map(e@)),
        entries is Some <==> all_times_readable(records@),
{
    let mut entries: BTreeMap<Id, TimeEntry> = BTreeMap::new();
    let mut i: usize = 0;
    while i < records.len()
        invariant
            i <= records.len(),
            reads_times(records@.take(i as int), view_map(entries@)),
            all_times_readable(records@.take(i as int)),
        decreases records.len() - i,
    {
        let record = &records[i];
        let ghost fewer = view_map(entries@);
        match (read_time(&record.started), read_stop(&record.stopped)) {
            (Some(started), Some(stopped)) => {
                let entry = TimeEntry { name: String::new(), started, stopped, change: None };
                put(&mut entries, i as u128, entry);
                proof {
                    let now = view_map(entries@);
                    let some = records@.take(i + 1);
                    assert forall|id: Id| id < some.len() implies {
                        let e = #[trigger] now[id];
                        &&& e.name == Seq::<char>::empty()
                        &&& reads_time(some[id as int].started.0@, e.started)
                        &&& reads_stop(some[id as int].stopped, e.stopped)
                        &&& e.change is None
                    } by {
                        if id < i {
                            assert(now[id] == fewer[id]);
                            assert(some[id as int] == records@.take(i as int)[id as int]);
                        }
                    }
                    assert forall|k: int| 0 <= k < i + 1 implies times_readable(
                        (#[trigger] some[k]).started,
                        some[k].stopped,
                    ) by {
                        if k < i {
                            assert(records@.take(i as int)[k] == some[k]);
                        }
                    }
                }
            },
            _ => {
                assert(records@[i as int] == *record);
                return None;
            },
        }
        i += 1;
    }
    proof {
        assert(records@.take(i as int) == records@);
    }
    Some(entries)
}

/// Reads the projects of one client, of which only the times are given.
fn read_untitled_projects(
    records: &Vec<clients_with_time_blocks_and_time_entries::Project>,
) -> (projects: Option<BTreeMap<Id, Project>>)
    ensures
        projects matches Some(p) ==> reads_untitled_projects(records@, view_map(p@)),
        projects is Some <==> untitled_projects_readable(records@),
{
    let mut projects: BTreeMap<Id, Project> = BTreeMap::new();
    let mut i: usize = 0;
    while i < records.len()
        invariant
            i <= records.len(),
            reads_untitled_projects(records@.take(i as int), view_map(projects@)),
            untitled_projects_readable(records@.take(i as int)),
        decreases records.len() - i,
    {
        let record = &records[i];
        let ghost fewer = view_map(projects@);
        match read_times(&record.time_entries) {
            Some(time_entries) => {
                let project = Project { name: String::new(), time_entries };
                put(&mut projects, i as u128, project);
                proof {
                    let now = view_map(projects@);
                    let some = records@.take(i + 1);
                    assert forall|id: Id| id < some.len() implies {
                        let p = #[trigger] now[id];
                        &&& p.name == Seq::<char>::empty()
                        &&& reads_times(some[id as int].time_entries@, p.time_entries)
                    } by {
                        if id < i {
                            assert(now[id] == fewer[id]);
                            assert(some[id as int] == records@.take(i as int)[id as int]);
                        }
                    }
                    assert forall|k: int| 0 <= k < i + 1 implies all_times_readable(
                        (#[trigger] some[k]).time_entries@,
                    ) by {
                        if k < i {
                            assert(records@.take(i as int)[k] == some[k]);
                        }
                    }
                }
            },
            None => {
                assert(records@[i as int] == *record);
                return None;
            },
        }
        i += 1;
    }
    proof {
        assert(records@.take(i as int) == records@);
    }
    Some(projects)
}

/// Reads the answer to the query for clients with their time blocks and
/// with the times of their entries.
///
/// The answer names neither the projects nor the entries, so each is filed
/// under its position in its list. The answer is accepted exactly where it
/// has a list of clients in which every identifier can be read and every
/// time denotes an instant that has a timestamp.
pub fn read_clients_with_time_blocks(
    query: &clients_with_time_blocks_and_time_entries::Query,
) -> (tree: Result<Tree, GraphQLError>)
    ensures
        match tree {
            Ok(tree) => query.query_client matches Some(records) && reads_billed_clients(
                records@,
                tree_view(&tree),
            ),
            Err(error) => is_unreadable(error),
        },
        tree is Ok <==> (query.query_client matches Some(records) && billed_clients_readable(
            records@,
        )),
{
    let records = match &query.query_client {
        Some(records) => records,
        None => {
            return Err(unreadable_error());
        },
    };
    let mut tree: Tree = BTreeMap::new();
    assert(tree_view(&tree) =~= Map::empty());
    let mut i: usize = 0;
    while i < records.len()
        invariant
            i <= records.len(),
            query.query_client == Some(*records),
            reads_billed_clients(records@.take(i as int), tree_view(&tree)),
            billed_clients_readable(records@.take(i as int)),
        decreases records.len() - i,
    {
        let ghost fewer = tree_view(&tree);
        proof {
            assert(records@.take(i + 1).drop_last() == records@.take(i as int));
            assert(records@.take(i + 1).last() == records@[i as int]);
        }
        match &records[i] {
            Some(record) => {
                match (
                    parse_id(record.id.as_str()),
                    read_blocks(&record.time_blocks),
                    read_untitled_projects(&record.projects),
                ) {
                    (Some(id), Some(time_blocks), Some(projects)) => {
                        let client = Client { name: record.name.clone(), projects, time_blocks };
                        put(&mut tree, id, client);
                        proof {
                            assert(files_billed_client(
                                *record,
                                fewer,
                                id,
                                client@,
                                tree_view(&tree),
                            ));
                        }
                    },
                    _ => {
                        assert(records@[i as int] == Some(*record));
                        return Err(unreadable_error());
                    },
                }
            },
            None => {},
        }
        proof {
            assert forall|k: int| 0 <= k < i + 1 implies ((#[trigger] records@.take(i + 1)[k])
                matches Some(record) ==> {
                &&& id_of_text(record.id@) is Some
                &&& blocks_of(record.time_blocks@) is Some
                &&& untitled_projects_readable(record.projects@)
            }) by {
                if k < i {
                    assert(records@.take(i as int)[k] == records@.take(i + 1)[k]);
                }
            }
        }
        i += 1;
    }
    proof {
        assert(records@.take(i as int) == records@);
    }
    Ok(tree)
}

} // verus!
