//! The state that every page holds, and what is common to all pages: how
//! fetched clients arrive, how failed requests are collected, and how the
//! collected errors are cleared.
//!
//! What the remote store answers to a mutation never reaches the tree: a
//! success changes nothing, a failure is added to the list of errors.
use vstd::prelude::*;
use crate::entity::Tree;
use crate::entity::TreeView;
use crate::graphql::GraphQLError;
use crate::remote_data::RemoteData;
use crate::time::Timestamp;
use crate::tree::tree_view;
use vstd::string::StringExecFns;

verus! {

/// How far the changes of the page are saved.
#[derive(Debug)]
pub enum ChangesStatus {
    NoChanges,
    Saving { requests_in_flight: usize },
    Saved(Timestamp),
}

/// The state of a page.
#[derive(Debug)]
pub struct Model {
    pub changes_status: ChangesStatus,
    pub errors: Vec<GraphQLError>,
    pub clients: RemoteData<Tree>,
}

impl Model {
    /// The tree of the page, if it has arrived.
    pub open spec fn tree(&self) -> Option<TreeView> {
        match self.clients {
            RemoteData::Loaded(tree) => Some(tree_view(&tree)),
            _ => None,
        }
    }

    /// Whether `self` differs from `before` in its tree at most: the errors
    /// and the status are the same, and a tree that has not arrived has
    /// still not arrived.
    pub open spec fn keeps_all_but_tree(&self, before: &Model) -> bool {
        &&& self.errors@ == before.errors@
        &&& self.changes_status == before.changes_status
        &&& self.tree() is Some <==> before.tree() is Some
        &&& before.tree() is None ==> self.clients == before.clients
    }

    /// Whether `self` is `before` as far as contracts can tell.
    pub open spec fn same_as(&self, before: &Model) -> bool {
        self.keeps_all_but_tree(before) && self.tree() == before.tree()
    }

    /// Whether `self` is `before` with one more error at the end of the list.
    pub open spec fn adds_error(&self, before: &Model, error: GraphQLError) -> bool {
        &&& self.errors@ == before.errors@.push(error)
        &&& self.changes_status == before.changes_status
        &&& self.clients == before.clients
    }

    /// The state of a page that has asked for its clients.
    pub fn new() -> (model: Model)
        ensures
            model.changes_status == ChangesStatus::NoChanges,
            model.errors@.len() == 0,
            model.clients == RemoteData::<Tree>::Loading,
    {
        Model {
            changes_status: ChangesStatus::NoChanges,
            errors: Vec::new(),
            clients: RemoteData::Loading,
        }
    }

    /// The fetch has ended: its clients become the tree of the page, or its
    /// error is added to the list while the page goes on waiting.
    pub fn clients_fetched(&mut self, outcome: Result<Tree, GraphQLError>)
        ensures
            match outcome {
                Ok(tree) => final(self).clients == RemoteData::Loaded(tree) && final(self).errors@
                    == old(self).errors@ && final(self).changes_status == old(self).changes_status,
                Err(error) => final(self).adds_error(old(self), error),
            },
    {
        match outcome {
            Ok(tree) => {
                self.clients = RemoteData::Loaded(tree);
            },
            Err(error) => {
                self.errors.push(error);
            },
        }
    }

    /// A mutation has ended: a failure is added to the list of errors. The
    /// tree stays as the actions of the user left it.
    pub fn changes_saved(&mut self, failure: Option<GraphQLError>)
        ensures
            match failure {
                Some(error) => final(self).adds_error(old(self), error),
                None => *final(self) == *old(self),
            },
            final(self).clients == old(self).clients,
    {
        match failure {
            Some(error) => {
                self.errors.push(error);
            },
            None => {},
        }
    }

    /// Empties the list of errors.
    pub fn clear_errors(&mut self)
        ensures
            final(self).errors@.len() == 0,
            final(self).changes_status == old(self).changes_status,
            final(self).clients == old(self).clients,
    {
        self.errors.clear();
    }
}

/// The question that is asked before something is deleted: the name of
/// what is to go, between the two halves of the sentence.
pub fn question(before: &str, name: &String, after: &str) -> (text: String)
    ensures
        text@ == before@ + name@ + after@,
{
    let mut text = String::from_str(before);
    text.append(name.as_str());
    text.append(after);
    text
}

} // verus!
