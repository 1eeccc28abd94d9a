//! The page on which clients and their projects are added, named and deleted.
use vstd::prelude::*;
use crate::command::Command;
use crate::command::Mutation;
use crate::command::NameField;
use crate::command::asks;
use crate::command::focuses;
use crate::command::sends_and_then;
use crate::command::sends_one;
pub use crate::entity::Client;
use crate::entity::ClientView;
use crate::entity::Project;
use crate::entity::ProjectView;
use crate::entity::Tree;
use crate::entity::put;
use crate::entity::take;
use crate::graphql::GraphQLError;
use crate::ident::ClientId;
use crate::ident::Id;
use crate::ident::ProjectId;
use crate::ident::new_id;
use crate::page::model::ChangesStatus;
pub use crate::page::model::Model;
use crate::page::model::question;
use crate::tree::get_client;
use crate::tree::get_project;
use crate::tree::lemma_same_projects_keep_one_running;
use crate::tree::lemma_with_project_after_without;
use crate::tree::lemma_with_project_keeps_one_running;
use crate::tree::lemma_without_project_keeps_one_running;
use crate::tree::one_runs_at_most;
use crate::tree::lemma_without_absent_project;
use crate::tree::project_at;
use crate::tree::put_project;
use crate::tree::take_project;
use crate::tree::tree_view;
use crate::tree::with_project;
use crate::tree::without_project;

verus! {

/// What can happen on the page.
#[derive(Debug)]
pub enum Msg {
    ClientsFetched(Result<Tree, GraphQLError>),
    ChangesSaved(Option<GraphQLError>),
    ClearErrors,
    AddClient,
    DeleteClient(ClientId),
    DeleteClientConfirmed(ClientId),
    FocusClientName(ClientId),
    ClientNameChanged(ClientId, String),
    SaveClientName(ClientId),
    AddProject(ClientId),
    DeleteProject(ClientId, ProjectId),
    DeleteProjectConfirmed(ClientId, ProjectId),
    FocusProjectName(ClientId, ProjectId),
    ProjectNameChanged(ClientId, ProjectId, String),
    SaveProjectName(ClientId, ProjectId),
}

/// A client as it is added: without name, projects and time blocks.
pub open spec fn fresh_client() -> ClientView {
    ClientView { name: Seq::empty(), projects: Map::empty(), time_blocks: Map::empty() }
}

/// A project as it is added: without name and time entries.
pub open spec fn fresh_project() -> ProjectView {
    ProjectView { name: Seq::empty(), time_entries: Map::empty() }
}

/// The question that is asked before a client is deleted.
pub open spec fn delete_client_question(name: Seq<char>) -> Seq<char> {
    "Client \""@ + name + "\" will be deleted."@
}

/// The question that is asked before a project is deleted.
pub open spec fn delete_project_question(name: Seq<char>) -> Seq<char> {
    "Project \""@ + name + "\" will be deleted."@
}

/// What adding a client under the fresh identifier `id` does: the tree
/// gains the client, a mutation to add it is sent, and its name field is
/// focused after the next render. Without a tree nothing happens.
pub open spec fn added_client(before: &Model, id: ClientId, after: &Model, cmds: Seq<Command<Msg>>)
    -> bool {
    &&& after.keeps_all_but_tree(before)
    &&& match before.tree() {
        Some(tree) => after.tree() == Some(tree.insert(id, fresh_client())) && sends_and_then(
            cmds,
            |m: Mutation| m.adds_client(id),
            Msg::FocusClientName(id),
        ),
        None => cmds.len() == 0,
    }
}

/// What adding a project under the fresh identifier `id` does: the client
/// gains the project, a mutation to add it is sent, and its name field is
/// focused after the next render. Without the client nothing happens.
pub open spec fn added_project(
    before: &Model,
    client: ClientId,
    id: ProjectId,
    after: &Model,
    cmds: Seq<Command<Msg>>,
) -> bool {
    &&& after.keeps_all_but_tree(before)
    &&& match before.tree() {
        Some(tree) => if tree.contains_key(client) {
            after.tree() == Some(with_project(tree, client, id, fresh_project()))
                && sends_and_then(
                cmds,
                |m: Mutation| m.adds_project(id, client),
                Msg::FocusProjectName(client, id),
            )
        } else {
            after.tree() == Some(tree) && cmds.len() == 0
        },
        None => cmds.len() == 0,
    }
}

/// What handling `msg` does to the page and asks of its surroundings.
pub open spec fn handled(before: &Model, msg: Msg, after: &Model, cmds: Seq<Command<Msg>>) -> bool {
    match msg {
        Msg::ClientsFetched(Ok(tree)) => {
            &&& after.clients == crate::remote_data::RemoteData::Loaded(tree)
            &&& after.errors@ == before.errors@
            &&& after.changes_status == before.changes_status
            &&& cmds.len() == 0
        },
        Msg::ClientsFetched(Err(error)) => after.adds_error(before, error) && cmds.len() == 0,
        Msg::ChangesSaved(Some(error)) => after.adds_error(before, error) && cmds.len() == 0,
        Msg::ChangesSaved(None) => after.same_as(before) && cmds.len() == 0,
        Msg::ClearErrors => {
            &&& after.errors@.len() == 0
            &&& after.changes_status == before.changes_status
            &&& after.clients == before.clients
            &&& cmds.len() == 0
        },
        Msg::AddClient => exists|id: ClientId| added_client(before, id, after, cmds),
        Msg::DeleteClient(id) => {
            &&& after.same_as(before)
            &&& match before.tree() {
                Some(tree) if tree.contains_key(id) => asks(
                    cmds,
                    delete_client_question(tree[id].name),
                    Msg::DeleteClientConfirmed(id),
                ),
                _ => cmds.len() == 0,
            }
        },
        Msg::DeleteClientConfirmed(id) => {
            &&& after.keeps_all_but_tree(before)
            &&& match before.tree() {
                Some(tree) if tree.contains_key(id) => after.tree() == Some(tree.remove(id))
                    && sends_one(cmds, |m: Mutation| m.deletes_client(id)),
                _ => after.tree() == before.tree() && cmds.len() == 0,
            }
        },
        Msg::FocusClientName(id) => {
            &&& after.same_as(before)
            &&& match before.tree() {
                Some(tree) if tree.contains_key(id) => focuses(cmds, NameField::Client(id)),
                _ => cmds.len() == 0,
            }
        },
        Msg::ClientNameChanged(id, name) => {
            &&& after.keeps_all_but_tree(before)
            &&& cmds.len() == 0
            &&& match before.tree() {
                Some(tree) if tree.contains_key(id) => after.tree() == Some(
                    tree.insert(id, ClientView { name: name@, ..tree[id] }),
                ),
                _ => after.tree() == before.tree(),
            }
        },
        Msg::SaveClientName(id) => {
            &&& after.same_as(before)
            &&& match before.tree() {
                Some(tree) if tree.contains_key(id) => sends_one(
                    cmds,
                    |m: Mutation| m.renames_client(id, tree[id].name),
                ),
                _ => cmds.len() == 0,
            }
        },
        Msg::AddProject(client) => exists|id: ProjectId|
            added_project(before, client, id, after, cmds),
        Msg::DeleteProject(client, id) => {
            &&& after.same_as(before)
            &&& match before.tree() {
                Some(tree) => match project_at(tree, client, id) {
                    Some(project) => asks(
                        cmds,
                        delete_project_question(project.name),
                        Msg::DeleteProjectConfirmed(client, id),
                    ),
                    None => cmds.len() == 0,
                },
                None => cmds.len() == 0,
            }
        },
        Msg::DeleteProjectConfirmed(client, id) => {
            &&& after.keeps_all_but_tree(before)
            &&& match before.tree() {
                Some(tree) => match project_at(tree, client, id) {
                    Some(_) => after.tree() == Some(without_project(tree, client, id))
                        && sends_one(cmds, |m: Mutation| m.deletes_project(id)),
                    None => after.tree() == Some(tree) && cmds.len() == 0,
                },
                None => cmds.len() == 0,
            }
        },
        Msg::FocusProjectName(client, id) => {
            &&& after.same_as(before)
            &&& match before.tree() {
                Some(tree) => match project_at(tree, client, id) {
                    Some(_) => focuses(cmds, NameField::Project(client, id)),
                    None => cmds.len() == 0,
                },
                None => cmds.len() == 0,
            }
        },
        Msg::ProjectNameChanged(client, id, name) => {
            &&& after.keeps_all_but_tree(before)
            &&& cmds.len() == 0
            &&& match before.tree() {
                Some(tree) => match project_at(tree, client, id) {
                    Some(project) => after.tree() == Some(
                        with_project(tree, client, id, ProjectView { name: name@, ..project }),
                    ),
                    None => after.tree() == Some(tree),
                },
                None => true,
            }
        },
        Msg::SaveProjectName(client, id) => {
            &&& after.same_as(before)
            &&& match before.tree() {
                Some(tree) => match project_at(tree, client, id) {
                    Some(project) => sends_one(
                        cmds,
                        |m: Mutation| m.renames_project(id, project.name),
                    ),
                    None => cmds.len() == 0,
                },
                None => cmds.len() == 0,
            }
        },
    }
}

/// The state of the page as it opens, and the command to fetch its clients.
pub fn init() -> (opened: (Model, Vec<Command<Msg>>))
    ensures
        opened.0.clients == crate::remote_data::RemoteData::<Tree>::Loading,
        opened.0.errors@.len() == 0,
        opened.0.changes_status == ChangesStatus::NoChanges,
        opened.1@.len() == 1,
        opened.1@[0] == Command::<Msg>::FetchClients,
{
    let mut cmds = Vec::new();
    cmds.push(Command::FetchClients);
    (Model::new(), cmds)
}

/// Adds a client under the fresh identifier `id`.
pub fn add_client(model: &mut Model, id: ClientId) -> (cmds: Vec<Command<Msg>>)
    ensures
        added_client(old(model), id, final(model), cmds@),
{
    let mut cmds = Vec::new();
    match model.clients.loaded_mut() {
        Some(tree) => {
            put(tree, id, Client::new(String::new()));
            cmds.push(Command::Send(Mutation::add_client(id)));
            cmds.push(Command::AfterNextRender(Msg::FocusClientName(id)));
        },
        None => {},
    }
    cmds
}

/// Adds a project to `client` under the fresh identifier `id`.
pub fn add_project(model: &mut Model, client: ClientId, id: ProjectId) -> (cmds: Vec<
    Command<Msg>,
>)
    ensures
        added_project(old(model), client, id, final(model), cmds@),
{
    let mut cmds = Vec::new();
    match model.clients.loaded_mut() {
        Some(tree) => {
            if get_client(tree, client).is_some() {
                put_project(tree, client, id, Project::new(String::new()));
                cmds.push(Command::Send(Mutation::add_project(id, client)));
                cmds.push(Command::AfterNextRender(Msg::FocusProjectName(client, id)));
            }
        },
        None => {},
    }
    cmds
}

/// Handles a message: changes the page at once and says what to ask of
/// the surroundings.
pub fn update(msg: Msg, model: &mut Model) -> (cmds: Vec<Command<Msg>>)
    ensures
        handled(old(model), msg, final(model), cmds@),
{
    let mut cmds = Vec::new();
    match msg {
        Msg::ClientsFetched(outcome) => {
            model.clients_fetched(outcome);
        },
        Msg::ChangesSaved(failure) => {
            model.changes_saved(failure);
        },
        Msg::ClearErrors => {
            model.clear_errors();
        },
        Msg::AddClient => {
            let id = new_id();
            cmds = add_client(model, id);
        },
        Msg::DeleteClient(id) => {
            match model.clients.loaded() {
                Some(tree) => match get_client(tree, id) {
                    Some(client) => {
                        cmds.push(
                            Command::Confirm(
                                question("Client \"", &client.name, "\" will be deleted."),
                                Msg::DeleteClientConfirmed(id),
                            ),
                        );
                    },
                    None => {},
                },
                None => {},
            }
        },
        Msg::DeleteClientConfirmed(id) => {
            match model.clients.loaded_mut() {
                Some(tree) => {
                    if take(tree, id).is_some() {
                        cmds.push(Command::Send(Mutation::delete_client(id)));
                    } else {
                        assert(tree_view(tree) =~= old(model).tree()->0);
                    }
                },
                None => {},
            }
        },
        Msg::FocusClientName(id) => {
            match model.clients.loaded() {
                Some(tree) => {
                    if get_client(tree, id).is_some() {
                        cmds.push(Command::Focus(NameField::Client(id)));
                    }
                },
                None => {},
            }
        },
        Msg::ClientNameChanged(id, name) => {
            match model.clients.loaded_mut() {
                Some(tree) => {
                    match take(tree, id) {
                        Some(mut client) => {
                            client.name = name;
                            put(tree, id, client);
                            assert(tree_view(tree) =~= old(model).tree()->0.insert(
                                id,
                                ClientView {
                                    name: name@,
                                    ..old(model).tree()->0[id]
                                },
                            ));
                        },
                        None => {
                            assert(tree_view(tree) =~= old(model).tree()->0);
                        },
                    }
                },
                None => {},
            }
        },
        Msg::SaveClientName(id) => {
            match model.clients.loaded() {
                Some(tree) => match get_client(tree, id) {
                    Some(client) => {
                        cmds.push(Command::Send(Mutation::rename_client(id, &client.name)));
                    },
                    None => {},
                },
                None => {},
            }
        },
        Msg::AddProject(client) => {
            let id = new_id();
            cmds = add_project(model, client, id);
        },
        Msg::DeleteProject(client, id) => {
            match model.clients.loaded() {
                Some(tree) => match get_project(tree, client, id) {
                    Some(project) => {
                        cmds.push(
                            Command::Confirm(
                                question("Project \"", &project.name, "\" will be deleted."),
                                Msg::DeleteProjectConfirmed(client, id),
                            ),
                        );
                    },
                    None => {},
                },
                None => {},
            }
        },
        Msg::DeleteProjectConfirmed(client, id) => {
            match model.clients.loaded_mut() {
                Some(tree) => {
                    if take_project(tree, client, id).is_some() {
                        cmds.push(Command::Send(Mutation::delete_project(id)));
                    } else {
                        proof {
                            lemma_without_absent_project(
                                old(model).tree()->0,
                                client,
                                id,
                            );
                        }
                    }
                },
                None => {},
            }
        },
        Msg::FocusProjectName(client, id) => {
            match model.clients.loaded() {
                Some(tree) => {
                    if get_project(tree, client, id).is_some() {
                        cmds.push(Command::Focus(NameField::Project(client, id)));
                    }
                },
                None => {},
            }
        },
        Msg::ProjectNameChanged(client, id, name) => {
            match model.clients.loaded_mut() {
                Some(tree) => {
                    match take_project(tree, client, id) {
                        Some(mut project) => {
                            project.name = name;
                            put_project(tree, client, id, project);
                            proof {
                                lemma_with_project_after_without(
                                    old(model).tree()->0,
                                    client,
                                    id,
                                    project@,
                                );
                            }
                        },
                        None => {
                            proof {
                                lemma_without_absent_project(
                                    old(model).tree()->0,
                                    client,
                                    id,
                                );
                            }
                        },
                    }
                },
                None => {},
            }
        },
        Msg::SaveProjectName(client, id) => {
            match model.clients.loaded() {
                Some(tree) => match get_project(tree, client, id) {
                    Some(project) => {
                        cmds.push(Command::Send(Mutation::rename_project(id, &project.name)));
                    },
                    None => {},
                },
                None => {},
            }
        },
    }
    cmds
}

/// What the remote store answers to a mutation never reaches the tree.
pub proof fn lemma_answers_leave_tree(
    before: &Model,
    answer: Option<GraphQLError>,
    after: &Model,
    cmds: Seq<Command<Msg>>,
)
    requires
        handled(before, Msg::ChangesSaved(answer), after, cmds),
    ensures
        after.tree() == before.tree(),
        after.clients is Loaded <==> before.clients is Loaded,
        cmds.len() == 0,
{
}

/// A client that is added and deleted at once is gone for good: whatever
/// the remote store answers to the two mutations, and in whichever order
/// the answers arrive, the tree is the one that the deletion left, and the
/// client is not in it.
pub proof fn lemma_deleted_client_stays_deleted(
    opened: &Model,
    id: ClientId,
    added: &Model,
    deleted: &Model,
    first_answer: Option<GraphQLError>,
    answered_once: &Model,
    second_answer: Option<GraphQLError>,
    answered_twice: &Model,
    cmds: Seq<Seq<Command<Msg>>>,
)
    requires
        cmds.len() == 4,
        opened.tree() is Some,
        added_client(opened, id, added, cmds[0]),
        handled(added, Msg::DeleteClientConfirmed(id), deleted, cmds[1]),
        handled(deleted, Msg::ChangesSaved(first_answer), answered_once, cmds[2]),
        handled(answered_once, Msg::ChangesSaved(second_answer), answered_twice, cmds[3]),
    ensures
        answered_twice.tree() == deleted.tree(),
        answered_twice.tree() == Some(opened.tree()->0.remove(id)),
        !answered_twice.tree()->0.contains_key(id),
{
    let tree = opened.tree()->0;
    assert(added.tree() == Some(tree.insert(id, fresh_client())));
    assert(tree.insert(id, fresh_client()).remove(id) =~= tree.remove(id));
    lemma_answers_leave_tree(deleted, first_answer, answered_once, cmds[2]);
    lemma_answers_leave_tree(answered_once, second_answer, answered_twice, cmds[3]);
}

/// No message but the arrival of fetched clients can make a second entry
/// of a project run: if at most one entry runs in every project before a
/// message is handled, the same holds after.
pub proof fn lemma_update_keeps_one_running(
    before: &Model,
    msg: Msg,
    after: &Model,
    cmds: Seq<Command<Msg>>,
)
    requires
        handled(before, msg, after, cmds),
        !(msg matches Msg::ClientsFetched(Ok(_))),
        before.tree() matches Some(tree) ==> one_runs_at_most(tree),
    ensures
        after.tree() matches Some(tree) ==> one_runs_at_most(tree),
{
    if before.tree() is Some {
        let tree = before.tree()->0;
        match msg {
            Msg::AddClient => {
                lemma_same_projects_keep_one_running(tree, after.tree()->0);
            },
            Msg::DeleteClientConfirmed(id) => {
                lemma_same_projects_keep_one_running(tree, after.tree()->0);
            },
            Msg::ClientNameChanged(id, name) => {
                lemma_same_projects_keep_one_running(tree, after.tree()->0);
            },
            Msg::AddProject(client) => {
                let id = choose|id: ProjectId| added_project(before, client, id, after, cmds);
                if tree.contains_key(client) {
                    assert(fresh_project().running() =~= Set::<Id>::empty());
                    lemma_with_project_keeps_one_running(tree, client, id, fresh_project());
                }
            },
            Msg::DeleteProjectConfirmed(client, id) => {
                lemma_without_project_keeps_one_running(tree, client, id);
            },
            Msg::ProjectNameChanged(client, id, name) => {
                match project_at(tree, client, id) {
                    Some(project) => {
                        let renamed = ProjectView { name: name@, ..project };
                        assert(project.wf());
                        assert(renamed.running() =~= project.running());
                        lemma_with_project_keeps_one_running(tree, client, id, renamed);
                    },
                    None => {},
                }
            },
            _ => {},
        }
    }
}


/// A client that is added under an identifier that is not yet taken is one
/// more client: the tree has the clients it had, each as it was, and the
/// new one without name, projects and time blocks.
pub proof fn lemma_added_client_is_new(
    before: &Model,
    id: ClientId,
    after: &Model,
    cmds: Seq<Command<Msg>>,
)
    requires
        added_client(before, id, after, cmds),
        before.tree() matches Some(tree) && !tree.contains_key(id) && tree.dom().finite(),
    ensures
        after.tree() matches Some(now) && {
            &&& now.dom() == before.tree()->0.dom().insert(id)
            &&& now.len() == before.tree()->0.len() + 1
            &&& now[id] == fresh_client()
            &&& forall|other: ClientId| #[trigger]
                before.tree()->0.contains_key(other) ==> now[other] == before.tree()->0[other]
        },
{
    let tree = before.tree()->0;
    assert(tree.insert(id, fresh_client()).dom() =~= tree.dom().insert(id));
}

/// A project that is added under an identifier that is not yet taken is
/// one more project of its client: the client has the projects it had,
/// each as it was, and the new one without name and time entries. Its name
/// and time blocks, and every other client, are as they were.
pub proof fn lemma_added_project_is_new(
    before: &Model,
    client: ClientId,
    id: ProjectId,
    after: &Model,
    cmds: Seq<Command<Msg>>,
)
    requires
        added_project(before, client, id, after, cmds),
        before.tree() matches Some(tree) && tree.contains_key(client)
            && !tree[client].projects.contains_key(id) && tree[client].projects.dom().finite(),
    ensures
        after.tree() matches Some(now) && {
            let owner = before.tree()->0[client];
            &&& now.dom() == before.tree()->0.dom()
            &&& now[client].projects.dom() == owner.projects.dom().insert(id)
            &&& now[client].projects.len() == owner.projects.len() + 1
            &&& now[client].projects[id] == fresh_project()
            &&& forall|other: ProjectId| #[trigger]
                owner.projects.contains_key(other) ==> now[client].projects[other]
                    == owner.projects[other]
            &&& now[client].name == owner.name
            &&& now[client].time_blocks == owner.time_blocks
            &&& forall|other: ClientId| #[trigger]
                now.contains_key(other) && other != client ==> now[other]
                    == before.tree()->0[other]
        },
{
    let tree = before.tree()->0;
    let owner = tree[client];
    assert(owner.projects.insert(id, fresh_project()).dom() =~= owner.projects.dom().insert(id));
    assert(with_project(tree, client, id, fresh_project()).dom() =~= tree.dom());
}

} // verus!
