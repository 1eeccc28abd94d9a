//! Paths into the tree.
//!
//! Every entity is reached from the root by the identifiers of its owners.
//! A step that finds no entity under an identifier ends the walk: a lookup
//! then finds nothing and a change leaves the tree as it was.
use vstd::prelude::*;
use crate::entity::Client;
use crate::entity::ClientView;
use crate::entity::Project;
use crate::entity::ProjectView;
use crate::entity::TimeBlock;
use crate::entity::TimeBlockView;
use crate::entity::TimeEntry;
use crate::entity::TimeEntryView;
use crate::entity::Tree;
use crate::entity::TreeView;
use crate::entity::lookup;
use crate::entity::put;
use crate::entity::take;
use crate::entity::view_map;
use crate::ident::Id;

verus! {

/// The mathematical view of a tree.
pub open spec fn tree_view(tree: &Tree) -> TreeView {
    view_map(tree@)
}

/// The project stored under `project` of `client`, if there is one.
pub open spec fn project_at(tree: TreeView, client: Id, project: Id) -> Option<ProjectView> {
    if tree.contains_key(client) && tree[client].projects.contains_key(project) {
        Some(tree[client].projects[project])
    } else {
        None
    }
}

/// The time block stored under `block` of `client`, if there is one.
pub open spec fn time_block_at(tree: TreeView, client: Id, block: Id) -> Option<TimeBlockView> {
    if tree.contains_key(client) && tree[client].time_blocks.contains_key(block) {
        Some(tree[client].time_blocks[block])
    } else {
        None
    }
}

/// The time entry stored under `entry` of `project` of `client`, if there is one.
pub open spec fn time_entry_at(tree: TreeView, client: Id, project: Id, entry: Id) -> Option<
    TimeEntryView,
> {
    match project_at(tree, client, project) {
        Some(p) => if p.time_entries.contains_key(entry) {
            Some(p.time_entries[entry])
        } else {
            None
        },
        None => None,
    }
}

/// The tree with `projects` as the projects of `client`, if there is such a client.
pub open spec fn with_projects(tree: TreeView, client: Id, projects: Map<Id, ProjectView>)
    -> TreeView {
    if tree.contains_key(client) {
        tree.insert(client, ClientView { projects, ..tree[client] })
    } else {
        tree
    }
}

/// The tree with `blocks` as the time blocks of `client`, if there is such a client.
pub open spec fn with_time_blocks(tree: TreeView, client: Id, blocks: Map<Id, TimeBlockView>)
    -> TreeView {
    if tree.contains_key(client) {
        tree.insert(client, ClientView { time_blocks: blocks, ..tree[client] })
    } else {
        tree
    }
}

/// The tree with `value` stored as `project` of `client`, if there is such a client.
pub open spec fn with_project(tree: TreeView, client: Id, project: Id, value: ProjectView)
    -> TreeView {
    if tree.contains_key(client) {
        with_projects(tree, client, tree[client].projects.insert(project, value))
    } else {
        tree
    }
}

/// The tree without `project` of `client`.
pub open spec fn without_project(tree: TreeView, client: Id, project: Id) -> TreeView {
    if tree.contains_key(client) {
        with_projects(tree, client, tree[client].projects.remove(project))
    } else {
        tree
    }
}

/// The tree with `value` stored as `block` of `client`, if there is such a client.
pub open spec fn with_time_block(tree: TreeView, client: Id, block: Id, value: TimeBlockView)
    -> TreeView {
    if tree.contains_key(client) {
        with_time_blocks(tree, client, tree[client].time_blocks.insert(block, value))
    } else {
        tree
    }
}

/// The tree without `block` of `client`.
pub open spec fn without_time_block(tree: TreeView, client: Id, block: Id) -> TreeView {
    if tree.contains_key(client) {
        with_time_blocks(tree, client, tree[client].time_blocks.remove(block))
    } else {
        tree
    }
}

/// The tree with `value` stored as `entry` of `project`, if there is such a project.
pub open spec fn with_time_entry(
    tree: TreeView,
    client: Id,
    project: Id,
    entry: Id,
    value: TimeEntryView,
) -> TreeView {
    match project_at(tree, client, project) {
        Some(p) => with_project(
            tree,
            client,
            project,
            ProjectView { time_entries: p.time_entries.insert(entry, value), ..p },
        ),
        None => tree,
    }
}

/// The tree without `entry` of `project`.
pub open spec fn without_time_entry(tree: TreeView, client: Id, project: Id, entry: Id)
    -> TreeView {
    match project_at(tree, client, project) {
        Some(p) => with_project(
            tree,
            client,
            project,
            ProjectView { time_entries: p.time_entries.remove(entry), ..p },
        ),
        None => tree,
    }
}

/// Removing a project that is not there changes nothing.
pub proof fn lemma_without_absent_project(tree: TreeView, client: Id, project: Id)
    requires
        project_at(tree, client, project) is None,
    ensures
        without_project(tree, client, project) == tree,
{
    if tree.contains_key(client) {
        assert(tree[client].projects.remove(project) =~= tree[client].projects);
    }
    assert(without_project(tree, client, project) =~= tree);
}

/// Storing a project where one was taken out is storing it over the old one.
pub proof fn lemma_with_project_after_without(
    tree: TreeView,
    client: Id,
    project: Id,
    value: ProjectView,
)
    ensures
        with_project(without_project(tree, client, project), client, project, value)
            == with_project(tree, client, project, value),
{
    if tree.contains_key(client) {
        assert(tree[client].projects.remove(project).insert(project, value)
            =~= tree[client].projects.insert(project, value));
    }
    assert(with_project(without_project(tree, client, project), client, project, value)
        =~= with_project(tree, client, project, value));
}

/// Removing a time block that is not there changes nothing.
pub proof fn lemma_without_absent_time_block(tree: TreeView, client: Id, block: Id)
    requires
        time_block_at(tree, client, block) is None,
    ensures
        without_time_block(tree, client, block) == tree,
{
    if tree.contains_key(client) {
        assert(tree[client].time_blocks.remove(block) =~= tree[client].time_blocks);
    }
    assert(without_time_block(tree, client, block) =~= tree);
}

/// Storing a time block where one was taken out is storing it over the old one.
pub proof fn lemma_with_time_block_after_without(
    tree: TreeView,
    client: Id,
    block: Id,
    value: TimeBlockView,
)
    ensures
        with_time_block(without_time_block(tree, client, block), client, block, value)
            == with_time_block(tree, client, block, value),
{
    if tree.contains_key(client) {
        assert(tree[client].time_blocks.remove(block).insert(block, value)
            =~= tree[client].time_blocks.insert(block, value));
    }
    assert(with_time_block(without_time_block(tree, client, block), client, block, value)
        =~= with_time_block(tree, client, block, value));
}

/// Removing a time entry that is not there changes nothing.
pub proof fn lemma_without_absent_time_entry(tree: TreeView, client: Id, project: Id, entry: Id)
    requires
        time_entry_at(tree, client, project, entry) is None,
    ensures
        without_time_entry(tree, client, project, entry) == tree,
{
    match project_at(tree, client, project) {
        Some(p) => {
            assert(p.time_entries.remove(entry) =~= p.time_entries);
            assert(tree[client].projects.insert(project, p) =~= tree[client].projects);
            assert(without_time_entry(tree, client, project, entry) =~= tree);
        },
        None => {},
    }
}

/// Storing a time entry where one was taken out is storing it over the old one.
pub proof fn lemma_with_time_entry_after_without(
    tree: TreeView,
    client: Id,
    project: Id,
    entry: Id,
    value: TimeEntryView,
)
    ensures
        with_time_entry(
            without_time_entry(tree, client, project, entry),
            client,
            project,
            entry,
            value,
        ) == with_time_entry(tree, client, project, entry, value),
{
    match project_at(tree, client, project) {
        Some(p) => {
            let removed = ProjectView { time_entries: p.time_entries.remove(entry), ..p };
            let mid = without_time_entry(tree, client, project, entry);
            assert(project_at(mid, client, project) == Some(removed));
            assert(removed.time_entries.insert(entry, value) =~= p.time_entries.insert(
                entry,
                value,
            ));
            assert(tree[client].projects.insert(project, removed).insert(
                project,
                ProjectView { time_entries: p.time_entries.insert(entry, value), ..p },
            ) =~= tree[client].projects.insert(
                project,
                ProjectView { time_entries: p.time_entries.insert(entry, value), ..p },
            ));
            assert(with_time_entry(mid, client, project, entry, value) =~= with_time_entry(
                tree,
                client,
                project,
                entry,
                value,
            ));
        },
        None => {},
    }
}

/// Whether at most one entry runs in every project of the tree.
pub open spec fn one_runs_at_most(tree: TreeView) -> bool {
    forall|client: Id, project: Id|
        tree.contains_key(client) && tree[client].projects.contains_key(project)
            ==> #[trigger] tree[client].projects[project].wf()
}

/// A tree whose clients have the projects they had in `tree`, or none,
/// has at most one entry running in every project if `tree` has.
pub proof fn lemma_same_projects_keep_one_running(tree: TreeView, after: TreeView)
    requires
        one_runs_at_most(tree),
        forall|client: Id| #[trigger]
            after.contains_key(client) ==> after[client].projects == Map::<Id, ProjectView>::empty()
                || (tree.contains_key(client) && after[client].projects == tree[client].projects),
    ensures
        one_runs_at_most(after),
{
    assert forall|c: Id, p: Id|
        after.contains_key(c) && after[c].projects.contains_key(p)
        implies #[trigger] after[c].projects[p].wf() by {
        assert(tree.contains_key(c) && tree[c].projects.contains_key(p));
    }
}

/// Storing a project of which at most one entry runs keeps the tree so.
pub proof fn lemma_with_project_keeps_one_running(
    tree: TreeView,
    client: Id,
    project: Id,
    value: ProjectView,
)
    requires
        one_runs_at_most(tree),
        value.wf(),
    ensures
        one_runs_at_most(with_project(tree, client, project, value)),
{
    let after = with_project(tree, client, project, value);
    assert forall|c: Id, p: Id|
        after.contains_key(c) && after[c].projects.contains_key(p)
        implies #[trigger] after[c].projects[p].wf() by {
        if c == client && p == project {
        } else {
            assert(tree.contains_key(c) && tree[c].projects.contains_key(p));
            assert(after[c].projects[p] == tree[c].projects[p]);
        }
    }
}

/// Taking a project out keeps at most one entry running in every project.
pub proof fn lemma_without_project_keeps_one_running(tree: TreeView, client: Id, project: Id)
    requires
        one_runs_at_most(tree),
    ensures
        one_runs_at_most(without_project(tree, client, project)),
{
    let after = without_project(tree, client, project);
    assert forall|c: Id, p: Id|
        after.contains_key(c) && after[c].projects.contains_key(p)
        implies #[trigger] after[c].projects[p].wf() by {
        assert(tree.contains_key(c) && tree[c].projects.contains_key(p));
        assert(after[c].projects[p] == tree[c].projects[p]);
    }
}

/// Storing an entry over one that is there, where the new one runs only if
/// the old one ran, keeps at most one entry running in every project.
pub proof fn lemma_with_time_entry_keeps_one_running(
    tree: TreeView,
    client: Id,
    project: Id,
    entry: Id,
    value: TimeEntryView,
)
    requires
        one_runs_at_most(tree),
        time_entry_at(tree, client, project, entry) matches Some(old) && (value.is_running()
            ==> old.is_running()),
    ensures
        one_runs_at_most(with_time_entry(tree, client, project, entry, value)),
{
    let p = project_at(tree, client, project)->0;
    let changed = ProjectView { time_entries: p.time_entries.insert(entry, value), ..p };
    assert(p.wf());
    assert forall|a: Id, b: Id|
        changed.running().contains(a) && changed.running().contains(b) implies a == b by {
        assert(p.running().contains(a));
        assert(p.running().contains(b));
    }
    lemma_with_project_keeps_one_running(tree, client, project, changed);
}

/// Taking an entry out keeps at most one entry running in every project.
pub proof fn lemma_without_time_entry_keeps_one_running(
    tree: TreeView,
    client: Id,
    project: Id,
    entry: Id,
)
    requires
        one_runs_at_most(tree),
    ensures
        one_runs_at_most(without_time_entry(tree, client, project, entry)),
{
    match project_at(tree, client, project) {
        Some(p) => {
            let changed = ProjectView { time_entries: p.time_entries.remove(entry), ..p };
            assert(p.wf());
            assert forall|a: Id, b: Id|
                changed.running().contains(a) && changed.running().contains(b) implies a == b by {
                assert(p.running().contains(a));
                assert(p.running().contains(b));
            }
            lemma_with_project_keeps_one_running(tree, client, project, changed);
        },
        None => {},
    }
}

/// Takes a project out of the tree.
pub fn take_project(tree: &mut Tree, client: Id, project: Id) -> (taken: Option<Project>)
    ensures
        match taken {
            Some(p) => project_at(tree_view(old(tree)), client, project) == Some(p@),
            None => project_at(tree_view(old(tree)), client, project) is None,
        },
        tree_view(final(tree)) == without_project(tree_view(old(tree)), client, project),
        tree_view(final(tree)).dom() == tree_view(old(tree)).dom(),
{
    match take(tree, client) {
        None => {
            assert(tree_view(tree) =~= tree_view(old(tree)));
            None
        },
        Some(mut owner) => {
            let ghost before = owner@;
            let taken = take(&mut owner.projects, project);
            put(tree, client, owner);
            assert(tree_view(tree) =~= without_project(tree_view(old(tree)), client, project));
            taken
        },
    }
}

/// Stores a project in the tree; without the client the project is dropped.
pub fn put_project(tree: &mut Tree, client: Id, project: Id, value: Project)
    ensures
        tree_view(final(tree)) == with_project(tree_view(old(tree)), client, project, value@),
        tree_view(final(tree)).dom() == tree_view(old(tree)).dom(),
{
    match take(tree, client) {
        None => {
            assert(tree_view(tree) =~= tree_view(old(tree)));
        },
        Some(mut owner) => {
            put(&mut owner.projects, project, value);
            put(tree, client, owner);
            assert(tree_view(tree) =~= with_project(tree_view(old(tree)), client, project, value@));
        },
    }
}

/// Takes a time block out of the tree.
pub fn take_time_block(tree: &mut Tree, client: Id, block: Id) -> (taken: Option<TimeBlock>)
    ensures
        match taken {
            Some(b) => time_block_at(tree_view(old(tree)), client, block) == Some(b@),
            None => time_block_at(tree_view(old(tree)), client, block) is None,
        },
        tree_view(final(tree)) == without_time_block(tree_view(old(tree)), client, block),
        tree_view(final(tree)).dom() == tree_view(old(tree)).dom(),
{
    match take(tree, client) {
        None => {
            assert(tree_view(tree) =~= tree_view(old(tree)));
            None
        },
        Some(mut owner) => {
            let taken = take(&mut owner.time_blocks, block);
            put(tree, client, owner);
            assert(tree_view(tree) =~= without_time_block(tree_view(old(tree)), client, block));
            taken
        },
    }
}

/// Stores a time block in the tree; without the client the block is dropped.
pub fn put_time_block(tree: &mut Tree, client: Id, block: Id, value: TimeBlock)
    ensures
        tree_view(final(tree)) == with_time_block(tree_view(old(tree)), client, block, value@),
        tree_view(final(tree)).dom() == tree_view(old(tree)).dom(),
{
    match take(tree, client) {
        None => {
            assert(tree_view(tree) =~= tree_view(old(tree)));
        },
        Some(mut owner) => {
            put(&mut owner.time_blocks, block, value);
            put(tree, client, owner);
            assert(tree_view(tree) =~= with_time_block(
                tree_view(old(tree)),
                client,
                block,
                value@,
            ));
        },
    }
}

/// Takes a time entry out of the tree.
pub fn take_time_entry(tree: &mut Tree, client: Id, project: Id, entry: Id) -> (taken:
    Option<TimeEntry>)
    ensures
        match taken {
            Some(e) => time_entry_at(tree_view(old(tree)), client, project, entry) == Some(e@),
            None => time_entry_at(tree_view(old(tree)), client, project, entry) is None,
        },
        tree_view(final(tree)) == without_time_entry(tree_view(old(tree)), client, project, entry),
{
    match take_project(tree, client, project) {
        None => {
            proof {
                lemma_without_absent_project(tree_view(old(tree)), client, project);
            }
            None
        },
        Some(mut owner) => {
            let taken = take(&mut owner.time_entries, entry);
            put_project(tree, client, project, owner);
            proof {
                lemma_with_project_after_without(tree_view(old(tree)), client, project, owner@);
            }
            taken
        },
    }
}

/// Stores a time entry in the tree; without the project the entry is dropped.
pub fn put_time_entry(tree: &mut Tree, client: Id, project: Id, entry: Id, value: TimeEntry)
    ensures
        tree_view(final(tree)) == with_time_entry(
            tree_view(old(tree)),
            client,
            project,
            entry,
            value@,
        ),
{
    match take_project(tree, client, project) {
        None => {
            proof {
                lemma_without_absent_project(tree_view(old(tree)), client, project);
            }
        },
        Some(mut owner) => {
            put(&mut owner.time_entries, entry, value);
            put_project(tree, client, project, owner);
            proof {
                lemma_with_project_after_without(tree_view(old(tree)), client, project, owner@);
            }
        },
    }
}

/// The client stored under `client`.
pub fn get_client(tree: &Tree, client: Id) -> (found: Option<&Client>)
    ensures
        match found {
            Some(c) => tree_view(tree).contains_key(client) && tree_view(tree)[client] == c@,
            None => !tree_view(tree).contains_key(client),
        },
{
    lookup(tree, client)
}

/// The project stored under `project` of `client`.
pub fn get_project(tree: &Tree, client: Id, project: Id) -> (found: Option<&Project>)
    ensures
        match found {
            Some(p) => project_at(tree_view(tree), client, project) == Some(p@),
            None => project_at(tree_view(tree), client, project) is None,
        },
{
    match lookup(tree, client) {
        Some(c) => lookup(&c.projects, project),
        None => None,
    }
}

/// The time block stored under `block` of `client`.
pub fn get_time_block(tree: &Tree, client: Id, block: Id) -> (found: Option<&TimeBlock>)
    ensures
        match found {
            Some(b) => time_block_at(tree_view(tree), client, block) == Some(b@),
            None => time_block_at(tree_view(tree), client, block) is None,
        },
{
    match lookup(tree, client) {
        Some(c) => lookup(&c.time_blocks, block),
        None => None,
    }
}

/// The time entry stored under `entry` of `project` of `client`.
pub fn get_time_entry(tree: &Tree, client: Id, project: Id, entry: Id) -> (found: Option<
    &TimeEntry,
>)
    ensures
        match found {
            Some(e) => time_entry_at(tree_view(tree), client, project, entry) == Some(e@),
            None => time_entry_at(tree_view(tree), client, project, entry) is None,
        },
{
    match get_project(tree, client, project) {
        Some(p) => lookup(&p.time_entries, entry),
        None => None,
    }
}

/// An entry that was stored is found where it was stored.
pub proof fn lemma_time_entry_at_stored(
    tree: TreeView,
    client: Id,
    project: Id,
    entry: Id,
    value: TimeEntryView,
)
    requires
        project_at(tree, client, project) is Some,
    ensures
        time_entry_at(with_time_entry(tree, client, project, entry, value), client, project, entry)
            == Some(value),
{
}

} // verus!
