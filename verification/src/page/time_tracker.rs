//! The page on which time is tracked: entries are started and stopped under
//! a project, and their names and times are edited.
use vstd::prelude::*;
use crate::command::Command;
use crate::command::Mutation;
use crate::command::asks;
use crate::command::sends_one;
pub use crate::entity::Client;
use crate::duration_text::duration_text;
use crate::entity::TimeEntryChange;
use crate::entity::TimeEntryChangeView;
use crate::entity::TimeEntryView;
use crate::entity::Tree;
use crate::entity::TreeView;
use crate::graphql::GraphQLError;
use crate::ident::ClientId;
use crate::ident::Id;
use crate::ident::ProjectId;
use crate::ident::TimeEntryId;
use crate::ident::new_id;
use crate::page::model::ChangesStatus;
pub use crate::page::model::Model;
use crate::page::model::question;
use crate::time::Timestamp;
use crate::time::has_timestamp;
use crate::time::now;
use crate::tree::get_time_entry;
use crate::tree::lemma_with_project_after_without;
use crate::tree::lemma_with_project_keeps_one_running;
use crate::tree::lemma_with_time_entry_keeps_one_running;
use crate::tree::lemma_without_time_entry_keeps_one_running;
use crate::tree::one_runs_at_most;
use crate::tree::lemma_with_time_entry_after_without;
use crate::tree::lemma_without_absent_project;
use crate::tree::lemma_without_absent_time_entry;
use crate::tree::project_at;
use crate::tree::put_project;
use crate::tree::put_time_entry;
use crate::tree::take_project;
use crate::tree::take_time_entry;
use crate::tree::time_entry_at;
use crate::tree::tree_view;
use crate::tree::with_project;
use crate::tree::with_time_entry;
use crate::tree::without_time_entry;

verus! {

/// What can happen on the page.
#[derive(Debug)]
pub enum Msg {
    ClientsFetched(Result<Tree, GraphQLError>),
    ChangesSaved(Option<GraphQLError>),
    ClearErrors,
    Start(ClientId, ProjectId),
    Stop(ClientId, ProjectId),
    DeleteTimeEntry(ClientId, ProjectId, TimeEntryId),
    DeleteTimeEntryConfirmed(ClientId, ProjectId, TimeEntryId),
    TimeEntryNameChanged(ClientId, ProjectId, TimeEntryId, String),
    SaveTimeEntryName(ClientId, ProjectId, TimeEntryId),
    TimeEntryStartedDateChanged(ClientId, ProjectId, TimeEntryId, String),
    TimeEntryStartedTimeChanged(ClientId, ProjectId, TimeEntryId, String),
    TimeEntryDurationChanged(ClientId, ProjectId, TimeEntryId, String),
    TimeEntryStoppedDateChanged(ClientId, ProjectId, TimeEntryId, String),
    TimeEntryStoppedTimeChanged(ClientId, ProjectId, TimeEntryId, String),
    SaveTimeEntryChange(ClientId, ProjectId, TimeEntryId),
    OnSecondTick,
}

/// The question that is asked before a time entry is deleted.
pub open spec fn delete_time_entry_question(name: Seq<char>) -> Seq<char> {
    "Time Entry \""@ + name + "\" will be deleted."@
}

/// What a start at `now` with the fresh identifier `id` does: the project
/// gets a running entry unless it has one, and a mutation to add the entry
/// is sent. Without the project, and where an entry runs, nothing happens.
pub open spec fn started(
    before: &Model,
    client: ClientId,
    project: ProjectId,
    id: TimeEntryId,
    now: Timestamp,
    after: &Model,
    cmds: Seq<Command<Msg>>,
) -> bool {
    &&& after.keeps_all_but_tree(before)
    &&& match before.tree() {
        Some(tree) => match project_at(tree, client, project) {
            Some(p) => {
                &&& after.tree() == Some(with_project(tree, client, project, p.started(id, now)))
                &&& if p.running() == Set::<Id>::empty() {
                    sends_one(
                        cmds,
                        |m: Mutation| m.adds_time_entry(id, p.next_name(), project, now),
                    )
                } else {
                    cmds.len() == 0
                }
            },
            None => after.tree() == Some(tree) && cmds.len() == 0,
        },
        None => cmds.len() == 0,
    }
}

/// What a stop at `now` does: the running entry of the project ends, and a
/// mutation to set its times is sent. Without the project, and where no
/// entry runs, nothing happens.
pub open spec fn stopped(
    before: &Model,
    client: ClientId,
    project: ProjectId,
    now: Timestamp,
    after: &Model,
    cmds: Seq<Command<Msg>>,
) -> bool {
    &&& after.keeps_all_but_tree(before)
    &&& match before.tree() {
        Some(tree) => match project_at(tree, client, project) {
            Some(p) => {
                &&& after.tree() == Some(with_project(tree, client, project, p.stopped(now)))
                &&& match p.active() {
                    Some(id) => sends_one(
                        cmds,
                        |m: Mutation|
                            m.sets_time_entry_times(id, p.time_entries[id].started, Some(now)),
                    ),
                    None => cmds.len() == 0,
                }
            },
            None => after.tree() == Some(tree) && cmds.len() == 0,
        },
        None => cmds.len() == 0,
    }
}

/// What staging `change` for an entry does: the entry holds the change in
/// place of what was staged before. Nothing is sent.
pub open spec fn staged(
    before: &Model,
    client: ClientId,
    project: ProjectId,
    id: TimeEntryId,
    change: TimeEntryChange,
    after: &Model,
    cmds: Seq<Command<Msg>>,
) -> bool {
    &&& after.keeps_all_but_tree(before)
    &&& cmds.len() == 0
    &&& match before.tree() {
        Some(tree) => match time_entry_at(tree, client, project, id) {
            Some(entry) => after.tree() == Some(
                with_time_entry(
                    tree,
                    client,
                    project,
                    id,
                    TimeEntryView { change: Some(change@), ..entry },
                ),
            ),
            None => after.tree() == Some(tree),
        },
        None => true,
    }
}

/// What committing the staged change of an entry does. Either a timestamp
/// is stored, and a mutation to set the times of the entry is sent; or the
/// entry only loses its staged change, and nothing is sent. A timestamp is
/// stored where the commit is sure to store one: for a duration that can
/// be read and that, added to the start, makes an instant that has a
/// timestamp. Nothing is stored where the commit is sure to store nothing.
pub open spec fn committed(
    before: &Model,
    client: ClientId,
    project: ProjectId,
    id: TimeEntryId,
    after: &Model,
    cmds: Seq<Command<Msg>>,
) -> bool {
    &&& after.keeps_all_but_tree(before)
    &&& match before.tree() {
        Some(tree) => match time_entry_at(tree, client, project, id) {
            Some(entry) => exists|left: TimeEntryView|
                {
                    &&& entry.commits_to(left)
                    &&& #[trigger] with_time_entry(tree, client, project, id, left)
                        == after.tree()->0
                    &&& if cmds.len() == 0 {
                        left == entry.unstaged()
                    } else {
                        entry.stores(left) && sends_one(
                            cmds,
                            |m: Mutation| m.sets_time_entry_times(id, left.started, left.stopped),
                        )
                    }
                    &&& entry.is_stored() ==> cmds.len() != 0
                    &&& entry.is_dropped() ==> cmds.len() == 0
                },
            None => after.tree() == Some(tree) && cmds.len() == 0,
        },
        None => cmds.len() == 0,
    }
}

/// What handling `msg` does to the page and asks of its surroundings.
pub open spec fn handled(before: &Model, msg: Msg, after: &Model, cmds: Seq<Command<Msg>>) -> bool {
    match msg {
        Msg::ClientsFetched(Ok(tree)) => {
            &&& after.clients == crate::remote_data::RemoteData::Loaded(tree)
            &&& after.errors@ == before.errors@
            &&& after.changes_status == before.changes_status
            &&& cmds.len() == 0
        },
        Msg::ClientsFetched(Err(error)) => after.adds_error(before, error) && cmds.len() == 0,
        Msg::ChangesSaved(Some(error)) => after.adds_error(before, error) && cmds.len() == 0,
        Msg::ChangesSaved(None) => after.same_as(before) && cmds.len() == 0,
        Msg::ClearErrors => {
            &&& after.errors@.len() == 0
            &&& after.changes_status == before.changes_status
            &&& after.clients == before.clients
            &&& cmds.len() == 0
        },
        Msg::Start(client, project) => exists|id: TimeEntryId, now: Timestamp|
            now.wf() && #[trigger] started(before, client, project, id, now, after, cmds),
        Msg::Stop(client, project) => exists|now: Timestamp|
            now.wf() && #[trigger] stopped(before, client, project, now, after, cmds),
        Msg::DeleteTimeEntry(client, project, id) => {
            &&& after.same_as(before)
            &&& match before.tree() {
                Some(tree) => match time_entry_at(tree, client, project, id) {
                    Some(entry) => asks(
                        cmds,
                        delete_time_entry_question(entry.name),
                        Msg::DeleteTimeEntryConfirmed(client, project, id),
                    ),
                    None => cmds.len() == 0,
                },
                None => cmds.len() == 0,
            }
        },
        Msg::DeleteTimeEntryConfirmed(client, project, id) => {
            &&& after.keeps_all_but_tree(before)
            &&& match before.tree() {
                Some(tree) => match time_entry_at(tree, client, project, id) {
                    Some(_) => after.tree() == Some(without_time_entry(tree, client, project, id))
                        && sends_one(cmds, |m: Mutation| m.deletes_time_entry(id)),
                    None => after.tree() == Some(tree) && cmds.len() == 0,
                },
                None => cmds.len() == 0,
            }
        },
        Msg::TimeEntryNameChanged(client, project, id, name) => {
            &&& after.keeps_all_but_tree(before)
            &&& cmds.len() == 0
            &&& match before.tree() {
                Some(tree) => match time_entry_at(tree, client, project, id) {
                    Some(entry) => after.tree() == Some(
                        with_time_entry(
                            tree,
                            client,
                            project,
                            id,
                            TimeEntryView { name: name@, ..entry },
                        ),
                    ),
                    None => after.tree() == Some(tree),
                },
                None => true,
            }
        },
        Msg::SaveTimeEntryName(client, project, id) => {
            &&& after.same_as(before)
            &&& match before.tree() {
                Some(tree) => match time_entry_at(tree, client, project, id) {
                    Some(entry) => sends_one(
                        cmds,
                        |m: Mutation| m.renames_time_entry(id, entry.name),
                    ),
                    None => cmds.len() == 0,
                },
                None => cmds.len() == 0,
            }
        },
        Msg::TimeEntryStartedDateChanged(client, project, id, text) => staged(
            before,
            client,
            project,
            id,
            TimeEntryChange::StartedDate(text),
            after,
            cmds,
        ),
        Msg::TimeEntryStartedTimeChanged(client, project, id, text) => staged(
            before,
            client,
            project,
            id,
            TimeEntryChange::StartedTime(text),
            after,
            cmds,
        ),
        Msg::TimeEntryDurationChanged(client, project, id, text) => staged(
            before,
            client,
            project,
            id,
            TimeEntryChange::Duration(text),
            after,
            cmds,
        ),
        Msg::TimeEntryStoppedDateChanged(client, project, id, text) => staged(
            before,
            client,
            project,
            id,
            TimeEntryChange::StoppedDate(text),
            after,
            cmds,
        ),
        Msg::TimeEntryStoppedTimeChanged(client, project, id, text) => staged(
            before,
            client,
            project,
            id,
            TimeEntryChange::StoppedTime(text),
            after,
            cmds,
        ),
        Msg::SaveTimeEntryChange(client, project, id) => committed(
            before,
            client,
            project,
            id,
            after,
            cmds,
        ),
        Msg::OnSecondTick => after.same_as(before) && cmds.len() == 0,
    }
}

/// The state of the page as it opens, and the commands to fetch its clients
/// and to tick every second.
pub fn init() -> (opened: (Model, Vec<Command<Msg>>))
    ensures
        opened.0.clients == crate::remote_data::RemoteData::<Tree>::Loading,
        opened.0.errors@.len() == 0,
        opened.0.changes_status == ChangesStatus::NoChanges,
        opened.1@.len() == 2,
        opened.1@[0] == Command::<Msg>::FetchClients,
        opened.1@[1] == Command::<Msg>::StartTicking,
{
    let mut cmds = Vec::new();
    cmds.push(Command::FetchClients);
    cmds.push(Command::StartTicking);
    (Model::new(), cmds)
}

/// Starts an entry under `project` at `now`, with the fresh identifier `id`.
pub fn start(
    model: &mut Model,
    client: ClientId,
    project: ProjectId,
    id: TimeEntryId,
    now: Timestamp,
) -> (cmds: Vec<Command<Msg>>)
    ensures
        started(old(model), client, project, id, now, final(model), cmds@),
{
    let mut cmds = Vec::new();
    match model.clients.loaded_mut() {
        Some(tree) => {
            match take_project(tree, client, project) {
                Some(mut p) => {
                    let name = p.next_entry_name();
                    let ghost was = p@;
                    if p.start(id, now) {
                        cmds.push(Command::Send(Mutation::add_time_entry(id, &name, project, now)));
                    }
                    put_project(tree, client, project, p);
                    proof {
                        lemma_with_project_after_without(
                            old(model).tree()->0,
                            client,
                            project,
                            was.started(id, now),
                        );
                    }
                },
                None => {
                    proof {
                        lemma_without_absent_project(old(model).tree()->0, client, project);
                    }
                },
            }
        },
        None => {},
    }
    cmds
}

/// Stops the running entry of `project` at `now`.
pub fn stop(model: &mut Model, client: ClientId, project: ProjectId, now: Timestamp) -> (cmds: Vec<
    Command<Msg>,
>)
    ensures
        stopped(old(model), client, project, now, final(model), cmds@),
{
    let mut cmds = Vec::new();
    match model.clients.loaded_mut() {
        Some(tree) => {
            match take_project(tree, client, project) {
                Some(mut p) => {
                    let ghost was = p@;
                    match p.stop(now) {
                        Some(id) => {
                            match crate::entity::lookup(&p.time_entries, id) {
                                Some(entry) => {
                                    cmds.push(
                                        Command::Send(
                                            Mutation::set_time_entry_times(
                                                id,
                                                entry.started,
                                                Some(now),
                                            ),
                                        ),
                                    );
                                },
                                None => {},
                            }
                        },
                        None => {},
                    }
                    put_project(tree, client, project, p);
                    proof {
                        lemma_with_project_after_without(
                            old(model).tree()->0,
                            client,
                            project,
                            was.stopped(now),
                        );
                    }
                },
                None => {
                    proof {
                        lemma_without_absent_project(old(model).tree()->0, client, project);
                    }
                },
            }
        },
        None => {},
    }
    cmds
}

/// Stages `change` for an entry.
pub fn stage(
    model: &mut Model,
    client: ClientId,
    project: ProjectId,
    id: TimeEntryId,
    change: TimeEntryChange,
) -> (cmds: Vec<Command<Msg>>)
    ensures
        staged(old(model), client, project, id, change, final(model), cmds@),
{
    match model.clients.loaded_mut() {
        Some(tree) => {
            match take_time_entry(tree, client, project, id) {
                Some(mut entry) => {
                    entry.stage(change);
                    put_time_entry(tree, client, project, id, entry);
                    proof {
                        lemma_with_time_entry_after_without(
                            old(model).tree()->0,
                            client,
                            project,
                            id,
                            entry@,
                        );
                    }
                },
                None => {
                    proof {
                        lemma_without_absent_time_entry(old(model).tree()->0, client, project, id);
                    }
                },
            }
        },
        None => {},
    }
    Vec::new()
}

/// Commits the staged change of an entry.
pub fn save_change(
    model: &mut Model,
    client: ClientId,
    project: ProjectId,
    id: TimeEntryId,
) -> (cmds: Vec<Command<Msg>>)
    ensures
        committed(old(model), client, project, id, final(model), cmds@),
{
    let mut cmds = Vec::new();
    match model.clients.loaded_mut() {
        Some(tree) => {
            match take_time_entry(tree, client, project, id) {
                Some(mut entry) => {
                    let ghost was = entry@;
                    if entry.save_change() {
                        cmds.push(
                            Command::Send(
                                Mutation::set_time_entry_times(id, entry.started, entry.stopped),
                            ),
                        );
                    }
                    put_time_entry(tree, client, project, id, entry);
                    proof {
                        lemma_with_time_entry_after_without(
                            old(model).tree()->0,
                            client,
                            project,
                            id,
                            entry@,
                        );
                        assert(with_time_entry(old(model).tree()->0, client, project, id, entry@)
                            == tree_view(tree));
                    }
                },
                None => {
                    proof {
                        lemma_without_absent_time_entry(old(model).tree()->0, client, project, id);
                    }
                },
            }
        },
        None => {},
    }
    cmds
}

/// Handles a message: changes the page at once and says what to ask of
/// the surroundings.
pub fn update(msg: Msg, model: &mut Model) -> (cmds: Vec<Command<Msg>>)
    ensures
        handled(old(model), msg, final(model), cmds@),
{
    let mut cmds = Vec::new();
    match msg {
        Msg::ClientsFetched(outcome) => {
            model.clients_fetched(outcome);
        },
        Msg::ChangesSaved(failure) => {
            model.changes_saved(failure);
        },
        Msg::ClearErrors => {
            model.clear_errors();
        },
        Msg::Start(client, project) => {
            let id = new_id();
            let at = now();
            cmds = start(model, client, project, id, at);
        },
        Msg::Stop(client, project) => {
            let at = now();
            cmds = stop(model, client, project, at);
        },
        Msg::DeleteTimeEntry(client, project, id) => {
            match model.clients.loaded() {
                Some(tree) => match get_time_entry(tree, client, project, id) {
                    Some(entry) => {
                        cmds.push(
                            Command::Confirm(
                                question("Time Entry \"", &entry.name, "\" will be deleted."),
                                Msg::DeleteTimeEntryConfirmed(client, project, id),
                            ),
                        );
                    },
                    None => {},
                },
                None => {},
            }
        },
        Msg::DeleteTimeEntryConfirmed(client, project, id) => {
            match model.clients.loaded_mut() {
                Some(tree) => {
                    if take_time_entry(tree, client, project, id).is_some() {
                        cmds.push(Command::Send(Mutation::delete_time_entry(id)));
                    } else {
                        proof {
                            lemma_without_absent_time_entry(
                                old(model).tree()->0,
                                client,
                                project,
                                id,
                            );
                        }
                    }
                },
                None => {},
            }
        },
        Msg::TimeEntryNameChanged(client, project, id, name) => {
            match model.clients.loaded_mut() {
                Some(tree) => {
                    match take_time_entry(tree, client, project, id) {
                        Some(mut entry) => {
                            entry.name = name;
                            put_time_entry(tree, client, project, id, entry);
                            proof {
                                lemma_with_time_entry_after_without(
                                    old(model).tree()->0,
                                    client,
                                    project,
                                    id,
                                    entry@,
                                );
                            }
                        },
                        None => {
                            proof {
                                lemma_without_absent_time_entry(
                                    old(model).tree()->0,
                                    client,
                                    project,
                                    id,
                                );
                            }
                        },
                    }
                },
                None => {},
            }
        },
        Msg::SaveTimeEntryName(client, project, id) => {
            match model.clients.loaded() {
                Some(tree) => match get_time_entry(tree, client, project, id) {
                    Some(entry) => {
                        cmds.push(Command::Send(Mutation::rename_time_entry(id, &entry.name)));
                    },
                    None => {},
                },
                None => {},
            }
        },
        Msg::TimeEntryStartedDateChanged(client, project, id, text) => {
            cmds = stage(model, client, project, id, TimeEntryChange::StartedDate(text));
        },
        Msg::TimeEntryStartedTimeChanged(client, project, id, text) => {
            cmds = stage(model, client, project, id, TimeEntryChange::StartedTime(text));
        },
        Msg::TimeEntryDurationChanged(client, project, id, text) => {
            cmds = stage(model, client, project, id, TimeEntryChange::Duration(text));
        },
        Msg::TimeEntryStoppedDateChanged(client, project, id, text) => {
            cmds = stage(model, client, project, id, TimeEntryChange::StoppedDate(text));
        },
        Msg::TimeEntryStoppedTimeChanged(client, project, id, text) => {
            cmds = stage(model, client, project, id, TimeEntryChange::StoppedTime(text));
        },
        Msg::SaveTimeEntryChange(client, project, id) => {
            cmds = save_change(model, client, project, id);
        },
        Msg::OnSecondTick => {},
    }
    cmds
}

/// After a start under a project of which at most one entry runs, exactly
/// one entry of the project runs; after the stop that follows, none does.
pub proof fn lemma_start_then_stop(
    opened: &Model,
    client: ClientId,
    project: ProjectId,
    id: TimeEntryId,
    now: Timestamp,
    running: &Model,
    later: Timestamp,
    halted: &Model,
    cmds: Seq<Seq<Command<Msg>>>,
)
    requires
        cmds.len() == 2,
        opened.tree() matches Some(tree) && project_at(tree, client, project) matches Some(p)
            && p.wf() && p.time_entries.dom().finite(),
        started(opened, client, project, id, now, running, cmds[0]),
        stopped(running, client, project, later, halted, cmds[1]),
    ensures
        running.tree() matches Some(tree) && project_at(tree, client, project) matches Some(p)
            && exists|entry: Id| #[trigger] p.running() == set![entry],
        halted.tree() matches Some(tree) && project_at(tree, client, project) matches Some(p)
            && p.running() == Set::<Id>::empty(),
{
    let tree = opened.tree()->0;
    let p = project_at(tree, client, project)->0;
    crate::tracking::lemma_start_then_stop(p, id, now, later);
    let with_running = p.started(id, now);
    let tree_running = with_project(tree, client, project, with_running);
    assert(running.tree() == Some(tree_running));
    assert(project_at(tree_running, client, project) == Some(with_running));
    let with_none = with_running.stopped(later);
    let tree_halted = with_project(tree_running, client, project, with_none);
    assert(halted.tree() == Some(tree_halted));
    assert(project_at(tree_halted, client, project) == Some(with_none));
}

/// What the remote store answers to a mutation never reaches the tree.
pub proof fn lemma_answers_leave_tree(
    before: &Model,
    answer: Option<GraphQLError>,
    after: &Model,
    cmds: Seq<Command<Msg>>,
)
    requires
        handled(before, Msg::ChangesSaved(answer), after, cmds),
    ensures
        after.tree() == before.tree(),
        cmds.len() == 0,
{
}

/// No message but the arrival of fetched clients can make a second entry
/// of a project run: if at most one entry runs in every project before a
/// message is handled, the same holds after.
pub proof fn lemma_update_keeps_one_running(
    before: &Model,
    msg: Msg,
    after: &Model,
    cmds: Seq<Command<Msg>>,
)
    requires
        handled(before, msg, after, cmds),
        !(msg matches Msg::ClientsFetched(Ok(_))),
        before.tree() matches Some(tree) ==> one_runs_at_most(tree),
    ensures
        after.tree() matches Some(tree) ==> one_runs_at_most(tree),
{
    if before.tree() is Some {
        let tree = before.tree()->0;
        match msg {
            Msg::Start(client, project) => {
                let (id, now) = choose|id: TimeEntryId, now: Timestamp|
                    now.wf() && #[trigger] started(before, client, project, id, now, after, cmds);
                match project_at(tree, client, project) {
                    Some(p) => {
                        crate::tracking::lemma_one_runs_after_start(p, id, now);
                        lemma_with_project_keeps_one_running(
                            tree,
                            client,
                            project,
                            p.started(id, now),
                        );
                    },
                    None => {},
                }
            },
            Msg::Stop(client, project) => {
                let now = choose|now: Timestamp|
                    now.wf() && #[trigger] stopped(before, client, project, now, after, cmds);
                match project_at(tree, client, project) {
                    Some(p) => {
                        crate::tracking::lemma_stop_keeps_one_running(p, now);
                        lemma_with_project_keeps_one_running(
                            tree,
                            client,
                            project,
                            p.stopped(now),
                        );
                    },
                    None => {},
                }
            },
            Msg::DeleteTimeEntryConfirmed(client, project, id) => {
                lemma_without_time_entry_keeps_one_running(tree, client, project, id);
            },
            Msg::TimeEntryNameChanged(client, project, id, name) => {
                match time_entry_at(tree, client, project, id) {
                    Some(entry) => {
                        lemma_with_time_entry_keeps_one_running(
                            tree,
                            client,
                            project,
                            id,
                            TimeEntryView { name: name@, ..entry },
                        );
                    },
                    None => {},
                }
            },
            Msg::TimeEntryStartedDateChanged(client, project, id, text) => {
                lemma_staging_keeps_one_running(
                    tree,
                    client,
                    project,
                    id,
                    TimeEntryChange::StartedDate(text),
                );
            },
            Msg::TimeEntryStartedTimeChanged(client, project, id, text) => {
                lemma_staging_keeps_one_running(
                    tree,
                    client,
                    project,
                    id,
                    TimeEntryChange::StartedTime(text),
                );
            },
            Msg::TimeEntryDurationChanged(client, project, id, text) => {
                lemma_staging_keeps_one_running(
                    tree,
                    client,
                    project,
                    id,
                    TimeEntryChange::Duration(text),
                );
            },
            Msg::TimeEntryStoppedDateChanged(client, project, id, text) => {
                lemma_staging_keeps_one_running(
                    tree,
                    client,
                    project,
                    id,
                    TimeEntryChange::StoppedDate(text),
                );
            },
            Msg::TimeEntryStoppedTimeChanged(client, project, id, text) => {
                lemma_staging_keeps_one_running(
                    tree,
                    client,
                    project,
                    id,
                    TimeEntryChange::StoppedTime(text),
                );
            },
            Msg::SaveTimeEntryChange(client, project, id) => {
                match time_entry_at(tree, client, project, id) {
                    Some(entry) => {
                        let left = choose|left: TimeEntryView|
                            {
                                &&& entry.commits_to(left)
                                &&& #[trigger] with_time_entry(tree, client, project, id, left)
                                    == after.tree()->0
                            };
                        crate::time_entry::lemma_commit_starts_nothing(entry, left);
                        lemma_with_time_entry_keeps_one_running(tree, client, project, id, left);
                    },
                    None => {},
                }
            },
            _ => {},
        }
    }
}

/// Staging a change keeps at most one entry running in every project.
proof fn lemma_staging_keeps_one_running(
    tree: TreeView,
    client: ClientId,
    project: ProjectId,
    id: TimeEntryId,
    change: TimeEntryChange,
)
    requires
        one_runs_at_most(tree),
    ensures
        time_entry_at(tree, client, project, id) matches Some(entry) ==> one_runs_at_most(
            with_time_entry(
                tree,
                client,
                project,
                id,
                TimeEntryView { change: Some(change@), ..entry },
            ),
        ),
{
    match time_entry_at(tree, client, project, id) {
        Some(entry) => {
            lemma_with_time_entry_keeps_one_running(
                tree,
                client,
                project,
                id,
                TimeEntryView { change: Some(change@), ..entry },
            );
        },
        None => {},
    }
}

/// Committing a duration as it is written stores it: where the start of
/// the entry and the duration make an instant that has a timestamp,
/// handling the commit sets the stop of the entry to that instant, keeps
/// its start, drops the staged text and sends the new times.
pub proof fn lemma_commit_of_written_duration(
    before: &Model,
    client: ClientId,
    project: ProjectId,
    id: TimeEntryId,
    seconds: int,
    after: &Model,
    cmds: Seq<Command<Msg>>,
)
    requires
        i64::MIN < seconds <= i64::MAX,
        handled(before, Msg::SaveTimeEntryChange(client, project, id), after, cmds),
        before.tree() matches Some(tree) && time_entry_at(tree, client, project, id) matches Some(
            entry,
        ) && entry.change == Some(TimeEntryChangeView::Duration(duration_text(seconds)))
            && has_timestamp(entry.started.secs + seconds, entry.started.nanos as int),
    ensures
        after.tree() matches Some(tree) && time_entry_at(tree, client, project, id) matches Some(
            left,
        ) && {
            &&& left.started == time_entry_at(before.tree()->0, client, project, id)->0.started
            &&& left.change is None
            &&& left.stopped matches Some(t) && t.wf() && t.secs == left.started.secs + seconds
                && t.nanos == left.started.nanos
            &&& sends_one(
                cmds,
                |m: Mutation| m.sets_time_entry_times(id, left.started, left.stopped),
            )
        },
{
    let tree = before.tree()->0;
    let entry = time_entry_at(tree, client, project, id)->0;
    let left = choose|left: TimeEntryView|
        {
            &&& entry.commits_to(left)
            &&& #[trigger] with_time_entry(tree, client, project, id, left) == after.tree()->0
            &&& if cmds.len() == 0 {
                left == entry.unstaged()
            } else {
                entry.stores(left) && sends_one(
                    cmds,
                    |m: Mutation| m.sets_time_entry_times(id, left.started, left.stopped),
                )
            }
            &&& entry.is_stored() ==> cmds.len() != 0
            &&& entry.is_dropped() ==> cmds.len() == 0
        };
    crate::time_entry::lemma_commit_of_written_duration(entry, left, seconds);
    crate::tree::lemma_time_entry_at_stored(tree, client, project, id, left);
}


/// A start under an identifier that is not yet taken, in a project of which
/// no entry runs, gives the project one more entry: the project has the
/// entries it had, each as it was, and the new one, which runs since the
/// given time, has the name of the entry that was newest, and has nothing
/// staged.
pub proof fn lemma_started_entry_is_new(
    before: &Model,
    client: ClientId,
    project: ProjectId,
    id: TimeEntryId,
    now: Timestamp,
    after: &Model,
    cmds: Seq<Command<Msg>>,
)
    requires
        started(before, client, project, id, now, after, cmds),
        before.tree() matches Some(tree) && project_at(tree, client, project) matches Some(p)
            && p.running() == Set::<Id>::empty() && !p.time_entries.contains_key(id)
            && p.time_entries.dom().finite(),
    ensures
        after.tree() matches Some(tree) && project_at(tree, client, project) matches Some(q) && {
            let p = project_at(before.tree()->0, client, project)->0;
            &&& q.name == p.name
            &&& q.time_entries.dom() == p.time_entries.dom().insert(id)
            &&& q.time_entries.len() == p.time_entries.len() + 1
            &&& q.time_entries[id] == (TimeEntryView {
                name: p.next_name(),
                started: now,
                stopped: None,
                change: None,
            })
            &&& forall|other: TimeEntryId| #[trigger]
                p.time_entries.contains_key(other) ==> q.time_entries[other]
                    == p.time_entries[other]
        },
{
    let tree = before.tree()->0;
    let p = project_at(tree, client, project)->0;
    let q = p.started(id, now);
    assert(project_at(with_project(tree, client, project, q), client, project) == Some(q));
    assert(q.time_entries.dom() =~= p.time_entries.dom().insert(id));
}

} // verus!
