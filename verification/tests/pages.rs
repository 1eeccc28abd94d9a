use std::collections::BTreeMap;
use time_tracker::command::{Command, Mutation, NameField};
use time_tracker::entity::{Client, Project, Tree};
use time_tracker::graphql::GraphQLError;
use time_tracker::ident::id_to_string;
use time_tracker::page::clients_and_projects::{add_client, add_project, init, update, Msg};
use time_tracker::page::model::{ChangesStatus, Model};
use time_tracker::remote_data::RemoteData;

fn loaded(tree: Tree) -> Model {
    let (mut model, _) = init();
    let cmds = update(Msg::ClientsFetched(Ok(tree)), &mut model);
    assert!(cmds.is_empty());
    model
}

fn tree_of(model: &Model) -> &Tree {
    model.clients.loaded().unwrap()
}

fn sample() -> Tree {
    let mut acme = Client::new("Acme".to_owned());
    acme.projects.insert(20, Project::new("Website".to_owned()));
    let mut tree = BTreeMap::new();
    tree.insert(10, acme);
    tree
}

#[test]
fn page_opens_waiting_for_its_clients() {
    let (model, cmds) = init();
    assert!(matches!(model.clients, RemoteData::Loading));
    assert!(matches!(model.changes_status, ChangesStatus::NoChanges));
    assert!(model.errors.is_empty());
    assert!(matches!(cmds.as_slice(), [Command::FetchClients]));
    assert!(model.clients.loaded().is_none());
}

#[test]
fn fetched_clients_become_the_tree() {
    let model = loaded(sample());
    assert_eq!(tree_of(&model).len(), 1);
    assert_eq!(tree_of(&model)[&10].name, "Acme");
    assert!(model.errors.is_empty());
}

#[test]
fn failed_fetch_is_collected_and_the_page_keeps_waiting() {
    let (mut model, _) = init();
    let cmds = update(
        Msg::ClientsFetched(Err(GraphQLError::FetchError("offline".to_owned()))),
        &mut model,
    );
    assert!(cmds.is_empty());
    assert!(matches!(model.clients, RemoteData::Loading));
    assert!(matches!(model.errors.as_slice(), [GraphQLError::FetchError(text)] if text == "offline"));
}

#[test]
fn errors_are_collected_in_order_and_cleared() {
    let mut model = loaded(sample());
    update(Msg::ChangesSaved(Some(GraphQLError::DecodeError("a".to_owned()))), &mut model);
    update(Msg::ChangesSaved(None), &mut model);
    update(Msg::ChangesSaved(Some(GraphQLError::ResponseErrors(vec!["b".to_owned()]))), &mut model);
    assert!(matches!(
        model.errors.as_slice(),
        [GraphQLError::DecodeError(_), GraphQLError::ResponseErrors(_)]
    ));
    assert_eq!(tree_of(&model).len(), 1);
    let cmds = update(Msg::ClearErrors, &mut model);
    assert!(cmds.is_empty());
    assert!(model.errors.is_empty());
    assert_eq!(tree_of(&model).len(), 1);
}

#[test]
fn handlers_do_nothing_before_the_clients_arrive() {
    let (mut model, _) = init();
    let msgs = vec![
        Msg::AddClient,
        Msg::DeleteClient(10),
        Msg::DeleteClientConfirmed(10),
        Msg::FocusClientName(10),
        Msg::ClientNameChanged(10, "x".to_owned()),
        Msg::SaveClientName(10),
        Msg::AddProject(10),
        Msg::DeleteProject(10, 20),
        Msg::DeleteProjectConfirmed(10, 20),
        Msg::FocusProjectName(10, 20),
        Msg::ProjectNameChanged(10, 20, "x".to_owned()),
        Msg::SaveProjectName(10, 20),
    ];
    for msg in msgs {
        assert!(update(msg, &mut model).is_empty());
        assert!(matches!(model.clients, RemoteData::Loading));
    }
}

#[test]
fn add_client_inserts_sends_and_focuses() {
    let mut model = loaded(BTreeMap::new());
    let cmds = add_client(&mut model, 77);
    let tree = tree_of(&model);
    assert_eq!(tree.len(), 1);
    assert_eq!(tree[&77].name, "");
    assert!(tree[&77].projects.is_empty());
    assert!(tree[&77].time_blocks.is_empty());
    assert_eq!(cmds.len(), 2);
    assert!(matches!(&cmds[0], Command::Send(Mutation::AddClient(args))
        if args.id == id_to_string(77) && args.user == "DUMMY_USER_ID"));
    assert!(matches!(&cmds[1], Command::AfterNextRender(Msg::FocusClientName(77))));
}

#[test]
fn add_client_message_uses_a_fresh_id() {
    let mut model = loaded(sample());
    let cmds = update(Msg::AddClient, &mut model);
    let tree = tree_of(&model);
    assert_eq!(tree.len(), 2);
    let id = *tree.keys().find(|id| **id != 10).unwrap();
    assert!(id > 10);
    assert!(matches!(&cmds[0], Command::Send(Mutation::AddClient(args)) if args.id == id_to_string(id)));
    assert!(matches!(&cmds[1], Command::AfterNextRender(Msg::FocusClientName(focused)) if *focused == id));
}

#[test]
fn delete_client_asks_first() {
    let mut model = loaded(sample());
    let cmds = update(Msg::DeleteClient(10), &mut model);
    assert_eq!(tree_of(&model).len(), 1);
    assert!(matches!(cmds.as_slice(),
        [Command::Confirm(text, Msg::DeleteClientConfirmed(10))]
        if text == "Client \"Acme\" will be deleted."));
    assert!(update(Msg::DeleteClient(11), &mut model).is_empty());
}

#[test]
fn confirmed_delete_removes_the_client_and_sends() {
    let mut model = loaded(sample());
    let cmds = update(Msg::DeleteClientConfirmed(10), &mut model);
    assert!(tree_of(&model).is_empty());
    assert!(matches!(cmds.as_slice(),
        [Command::Send(Mutation::DeleteClient(args))] if args.id == id_to_string(10)));
    assert!(update(Msg::DeleteClientConfirmed(10), &mut model).is_empty());
}

#[test]
fn client_name_changes_at_once_and_is_sent_on_save() {
    let mut model = loaded(sample());
    assert!(update(Msg::ClientNameChanged(10, "Acme Ltd".to_owned()), &mut model).is_empty());
    assert_eq!(tree_of(&model)[&10].name, "Acme Ltd");
    assert_eq!(tree_of(&model)[&10].projects.len(), 1);
    let cmds = update(Msg::SaveClientName(10), &mut model);
    assert!(matches!(cmds.as_slice(),
        [Command::Send(Mutation::RenameClient(args))]
        if args.id == id_to_string(10) && args.name == "Acme Ltd"));
    assert!(update(Msg::ClientNameChanged(11, "x".to_owned()), &mut model).is_empty());
    assert!(update(Msg::SaveClientName(11), &mut model).is_empty());
    assert_eq!(tree_of(&model).len(), 1);
}

#[test]
fn focus_is_given_to_what_is_there() {
    let mut model = loaded(sample());
    assert!(matches!(
        update(Msg::FocusClientName(10), &mut model).as_slice(),
        [Command::Focus(NameField::Client(10))]
    ));
    assert!(update(Msg::FocusClientName(11), &mut model).is_empty());
    assert!(matches!(
        update(Msg::FocusProjectName(10, 20), &mut model).as_slice(),
        [Command::Focus(NameField::Project(10, 20))]
    ));
    assert!(update(Msg::FocusProjectName(10, 21), &mut model).is_empty());
    assert!(update(Msg::FocusProjectName(11, 20), &mut model).is_empty());
}

#[test]
fn add_project_inserts_under_the_client() {
    let mut model = loaded(sample());
    let cmds = add_project(&mut model, 10, 30);
    let projects = &tree_of(&model)[&10].projects;
    assert_eq!(projects.len(), 2);
    assert_eq!(projects[&30].name, "");
    assert!(projects[&30].time_entries.is_empty());
    assert_eq!(projects[&20].name, "Website");
    assert!(matches!(&cmds[0], Command::Send(Mutation::AddProject(args))
        if args.id == id_to_string(30) && args.client == id_to_string(10)));
    assert!(matches!(&cmds[1], Command::AfterNextRender(Msg::FocusProjectName(10, 30))));
    assert_eq!(cmds.len(), 2);
    assert!(add_project(&mut model, 11, 31).is_empty());
    assert_eq!(tree_of(&model).len(), 1);
    let cmds = update(Msg::AddProject(10), &mut model);
    assert_eq!(cmds.len(), 2);
    assert_eq!(tree_of(&model)[&10].projects.len(), 3);
}

#[test]
fn project_is_renamed_and_deleted() {
    let mut model = loaded(sample());
    assert!(update(Msg::ProjectNameChanged(10, 20, "Shop".to_owned()), &mut model).is_empty());
    assert_eq!(tree_of(&model)[&10].projects[&20].name, "Shop");
    assert_eq!(tree_of(&model)[&10].name, "Acme");
    assert!(matches!(update(Msg::SaveProjectName(10, 20), &mut model).as_slice(),
        [Command::Send(Mutation::RenameProject(args))]
        if args.id == id_to_string(20) && args.name == "Shop"));
    assert!(matches!(update(Msg::DeleteProject(10, 20), &mut model).as_slice(),
        [Command::Confirm(text, Msg::DeleteProjectConfirmed(10, 20))]
        if text == "Project \"Shop\" will be deleted."));
    assert_eq!(tree_of(&model)[&10].projects.len(), 1);
    assert!(matches!(update(Msg::DeleteProjectConfirmed(10, 20), &mut model).as_slice(),
        [Command::Send(Mutation::DeleteProject(args))] if args.id == id_to_string(20)));
    assert!(tree_of(&model)[&10].projects.is_empty());
    assert!(update(Msg::DeleteProjectConfirmed(10, 20), &mut model).is_empty());
    assert!(update(Msg::DeleteProject(10, 20), &mut model).is_empty());
    assert!(update(Msg::SaveProjectName(10, 20), &mut model).is_empty());
    assert!(update(Msg::ProjectNameChanged(10, 20, "x".to_owned()), &mut model).is_empty());
    assert_eq!(tree_of(&model).len(), 1);
}

fn add_then_delete(answers: [Option<GraphQLError>; 2]) -> Model {
    let mut model = loaded(sample());
    add_client(&mut model, 99);
    assert!(tree_of(&model).contains_key(&99));
    update(Msg::DeleteClientConfirmed(99), &mut model);
    for answer in answers {
        assert!(update(Msg::ChangesSaved(answer), &mut model).is_empty());
    }
    model
}

#[test]
fn deleted_client_stays_deleted_whatever_the_answers() {
    let failure = || Some(GraphQLError::FetchError("add failed".to_owned()));
    let one = add_then_delete([failure(), None]);
    let other = add_then_delete([None, failure()]);
    let both = add_then_delete([failure(), failure()]);
    for model in [&one, &other, &both] {
        assert!(!tree_of(model).contains_key(&99));
        assert_eq!(tree_of(model).len(), 1);
        assert_eq!(tree_of(model)[&10].name, "Acme");
    }
    assert_eq!(one.errors.len(), 1);
    assert_eq!(other.errors.len(), 1);
    assert_eq!(both.errors.len(), 2);
}

#[test]
fn remote_data_hands_out_what_is_loaded() {
    let mut data: RemoteData<u32> = RemoteData::NotAsked;
    assert!(data.loaded().is_none());
    assert!(data.loaded_mut().is_none());
    data = RemoteData::Loading;
    assert!(data.loaded().is_none());
    assert!(data.loaded_mut().is_none());
    data = RemoteData::Loaded(5);
    assert_eq!(data.loaded(), Some(&5));
    *data.loaded_mut().unwrap() = 6;
    assert_eq!(data.loaded(), Some(&6));
}

#[test]
fn every_page_opens_without_changes() {
    let (model, _) = init();
    assert!(matches!(model.changes_status, ChangesStatus::NoChanges));
    let (model, _) = time_tracker::page::time_tracker::init();
    assert!(matches!(model.changes_status, ChangesStatus::NoChanges));
    assert!(model.errors.is_empty());
    let (model, _) = time_tracker::page::time_blocks::init();
    assert!(matches!(model.changes_status, ChangesStatus::NoChanges));
    assert!(model.errors.is_empty());
}

#[test]
fn question_puts_the_name_between_its_halves() {
    let text = time_tracker::page::model::question("Delete \"", &"a b".to_owned(), "\"?");
    assert_eq!(text, "Delete \"a b\"?");
    assert_eq!(time_tracker::page::model::question("", &String::new(), ""), "");
}
