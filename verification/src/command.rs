//! What a page asks its surroundings to do.
//!
//! Handling a message changes the state of the page at once and gives a
//! list of commands. A command names work that lies outside the page: a
//! request to the remote store, a question to the user, a message to hand
//! back later. None of them is waited for.
use vstd::prelude::*;
use crate::entity::TimeBlockStatus;
use crate::graphql::mutations::client::add::AddClientArguments;
use crate::graphql::mutations::client::rename::RenameClientArguments;
use crate::graphql::mutations::client::delete::DeleteClientArguments;
use crate::graphql::mutations::project::add::AddProjectArguments;
use crate::graphql::mutations::project::rename::RenameProjectArguments;
use crate::graphql::mutations::project::delete::DeleteProjectArguments;
use crate::graphql::mutations::time_block::add::AddTimeBlockArguments;
use crate::graphql::mutations::time_block::rename::RenameTimeBlockArguments;
use crate::graphql::mutations::time_block::delete::DeleteTimeBlockArguments;
use crate::graphql::mutations::time_block::set_duration::SetTimeBlockDurationArguments;
use crate::graphql::mutations::time_block::set_status::SetTimeBlockStatusArguments;
use crate::graphql::mutations::invoice::add::AddInvoiceArguments;
use crate::graphql::mutations::invoice::set_custom_id::SetInvoiceCustomIdArguments;
use crate::graphql::mutations::invoice::set_url::SetInvoiceUrlArguments;
use crate::graphql::mutations::invoice::delete::DeleteInvoiceArguments;
use crate::graphql::mutations::time_entry::add::AddTimeEntryArguments;
use crate::graphql::mutations::time_entry::rename::RenameTimeEntryArguments;
use crate::graphql::mutations::time_entry::delete::DeleteTimeEntryArguments;
use crate::graphql::mutations::time_entry::set_times::SetTimeEntryTimesArguments;
use crate::ident::Id;
use crate::ident::id_text;
use crate::ident::id_to_string;
use crate::time::Duration;
use crate::time::Timestamp;

verus! {

/// The user that owns every new client until accounts are wired in.
pub open spec fn placeholder_user() -> Seq<char> {
    "DUMMY_USER_ID"@
}

/// A mutation of the remote store, with the arguments it is built from.
#[derive(Debug)]
pub enum Mutation {
    AddClient(AddClientArguments),
    RenameClient(RenameClientArguments),
    DeleteClient(DeleteClientArguments),
    AddProject(AddProjectArguments),
    RenameProject(RenameProjectArguments),
    DeleteProject(DeleteProjectArguments),
    AddTimeBlock(AddTimeBlockArguments),
    RenameTimeBlock(RenameTimeBlockArguments),
    DeleteTimeBlock(DeleteTimeBlockArguments),
    SetTimeBlockDuration(SetTimeBlockDurationArguments),
    SetTimeBlockStatus(SetTimeBlockStatusArguments),
    AddInvoice(AddInvoiceArguments),
    SetInvoiceCustomId(SetInvoiceCustomIdArguments),
    SetInvoiceUrl(SetInvoiceUrlArguments),
    DeleteInvoice(DeleteInvoiceArguments),
    AddTimeEntry(AddTimeEntryArguments),
    RenameTimeEntry(RenameTimeEntryArguments),
    DeleteTimeEntry(DeleteTimeEntryArguments),
    SetTimeEntryTimes(SetTimeEntryTimesArguments),
}

/// What can be given the keyboard focus: the name field of an entity.
#[derive(Clone, Copy, Debug, PartialEq, Eq, Structural, PartialOrd, Ord, Hash)]
pub enum NameField {
    Client(Id),
    Project(Id, Id),
    TimeBlock(Id, Id),
}

/// A piece of work for the surroundings of a page whose messages are `M`.
#[derive(Debug)]
pub enum Command<M> {
    /// Fetch the clients; hand the outcome back as a message.
    FetchClients,
    /// Hand a tick message back every second.
    StartTicking,
    /// Send the mutation; hand the outcome back as a message.
    Send(Mutation),
    /// Hand the message back after the page was rendered next.
    AfterNextRender(M),
    /// Give the field the keyboard focus.
    Focus(NameField),
    /// Ask the user the question; hand the message back if the answer is yes.
    Confirm(String, M),
    /// Read the text as a number of hours; hand back the seconds it makes
    /// for the time block, or that it could not be read.
    ReadHours(Id, Id, String),
}

impl Mutation {
    /// Whether this mutation adds the client `id`, owned by the placeholder user.
    pub open spec fn adds_client(self, id: Id) -> bool {
        self matches Mutation::AddClient(a) && {
            &&& a.id@ == id_text(id)
            &&& a.user@ == placeholder_user()
        }
    }

    /// Whether this mutation gives the client `id` the name `name`.
    pub open spec fn renames_client(self, id: Id, name: Seq<char>) -> bool {
        self matches Mutation::RenameClient(a) && {
            &&& a.id@ == id_text(id)
            &&& a.name@ == name
        }
    }

    /// Whether this mutation deletes the client `id`.
    pub open spec fn deletes_client(self, id: Id) -> bool {
        self matches Mutation::DeleteClient(a) && {
            &&& a.id@ == id_text(id)
        }
    }

    /// Whether this mutation adds the project `id` to `client`.
    pub open spec fn adds_project(self, id: Id, client: Id) -> bool {
        self matches Mutation::AddProject(a) && {
            &&& a.id@ == id_text(id)
            &&& a.client@ == id_text(client)
        }
    }

    /// Whether this mutation gives the project `id` the name `name`.
    pub open spec fn renames_project(self, id: Id, name: Seq<char>) -> bool {
        self matches Mutation::RenameProject(a) && {
            &&& a.id@ == id_text(id)
            &&& a.name@ == name
        }
    }

    /// Whether this mutation deletes the project `id`.
    pub open spec fn deletes_project(self, id: Id) -> bool {
        self matches Mutation::DeleteProject(a) && {
            &&& a.id@ == id_text(id)
        }
    }

    /// Whether this mutation adds the time block `id` of `duration` to `client`.
    pub open spec fn adds_time_block(self, id: Id, client: Id, duration: Duration) -> bool {
        self matches Mutation::AddTimeBlock(a) && {
            &&& a.id@ == id_text(id)
            &&& a.client@ == id_text(client)
            &&& a.duration == duration
        }
    }

    /// Whether this mutation gives the time block `id` the name `name`.
    pub open spec fn renames_time_block(self, id: Id, name: Seq<char>) -> bool {
        self matches Mutation::RenameTimeBlock(a) && {
            &&& a.id@ == id_text(id)
            &&& a.name@ == name
        }
    }

    /// Whether this mutation deletes the time block `id`.
    pub open spec fn deletes_time_block(self, id: Id) -> bool {
        self matches Mutation::DeleteTimeBlock(a) && {
            &&& a.id@ == id_text(id)
        }
    }

    /// Whether this mutation sets the duration of the time block `id` to `duration` seconds.
    pub open spec fn sets_time_block_duration(self, id: Id, duration: i32) -> bool {
        self matches Mutation::SetTimeBlockDuration(a) && {
            &&& a.id@ == id_text(id)
            &&& a.duration == duration
        }
    }

    /// Whether this mutation sets the billing status of the time block `id`.
    pub open spec fn sets_time_block_status(self, id: Id, status: TimeBlockStatus) -> bool {
        self matches Mutation::SetTimeBlockStatus(a) && {
            &&& a.id@ == id_text(id)
            &&& a.status == status
        }
    }

    /// Whether this mutation attaches the invoice `id` to `time_block`.
    pub open spec fn adds_invoice(self, id: Id, time_block: Id) -> bool {
        self matches Mutation::AddInvoice(a) && {
            &&& a.id@ == id_text(id)
            &&& a.time_block@ == id_text(time_block)
        }
    }

    /// Whether this mutation files the invoice `id` under `custom_id`.
    pub open spec fn sets_invoice_custom_id(self, id: Id, custom_id: Seq<char>) -> bool {
        self matches Mutation::SetInvoiceCustomId(a) && {
            &&& a.id@ == id_text(id)
            &&& a.custom_id@ == custom_id
        }
    }

    /// Whether this mutation sets the address of the invoice `id`.
    pub open spec fn sets_invoice_url(self, id: Id, url: Seq<char>) -> bool {
        self matches Mutation::SetInvoiceUrl(a) && {
            &&& a.id@ == id_text(id)
            &&& a.url@ == url
        }
    }

    /// Whether this mutation deletes the invoice `id`.
    pub open spec fn deletes_invoice(self, id: Id) -> bool {
        self matches Mutation::DeleteInvoice(a) && {
            &&& a.id@ == id_text(id)
        }
    }

    /// Whether this mutation adds the time entry `id`, started at `started`, to `project`.
    pub open spec fn adds_time_entry(
        self,
        id: Id,
        name: Seq<char>,
        project: Id,
        started: Timestamp,
    ) -> bool {
        self matches Mutation::AddTimeEntry(a) && {
            &&& a.id@ == id_text(id)
            &&& a.name@ == name
            &&& a.project@ == id_text(project)
            &&& a.started == started
        }
    }

    /// Whether this mutation gives the time entry `id` the name `name`.
    pub open spec fn renames_time_entry(self, id: Id, name: Seq<char>) -> bool {
        self matches Mutation::RenameTimeEntry(a) && {
            &&& a.id@ == id_text(id)
            &&& a.name@ == name
        }
    }

    /// Whether this mutation deletes the time entry `id`.
    pub open spec fn deletes_time_entry(self, id: Id) -> bool {
        self matches Mutation::DeleteTimeEntry(a) && {
            &&& a.id@ == id_text(id)
        }
    }

    /// Whether this mutation sets the start and the stop of the time entry `id`.
    pub open spec fn sets_time_entry_times(
        self,
        id: Id,
        started: Timestamp,
        stopped: Option<Timestamp>,
    ) -> bool {
        self matches Mutation::SetTimeEntryTimes(a) && {
            &&& a.id@ == id_text(id)
            &&& a.started == started
            &&& a.stopped == stopped
        }
    }

    /// The mutation that adds the client `id`, owned by the placeholder user.
    pub fn add_client(id: Id) -> (mutation: Mutation)
        ensures
            mutation.adds_client(id),
    {
        Mutation::AddClient(
            AddClientArguments {
                id: id_to_string(id),
                user: "DUMMY_USER_ID".to_owned(),
            },
        )
    }

    /// The mutation that gives the client `id` the name `name`.
    pub fn rename_client(id: Id, name: &String) -> (mutation: Mutation)
        ensures
            mutation.renames_client(id, name@),
    {
        Mutation::RenameClient(RenameClientArguments { id: id_to_string(id), name: name.clone() })
    }

    /// The mutation that deletes the client `id`.
    pub fn delete_client(id: Id) -> (mutation: Mutation)
        ensures
            mutation.deletes_client(id),
    {
        Mutation::DeleteClient(DeleteClientArguments { id: id_to_string(id) })
    }

    /// The mutation that adds the project `id` to `client`.
    pub fn add_project(id: Id, client: Id) -> (mutation: Mutation)
        ensures
            mutation.adds_project(id, client),
    {
        Mutation::AddProject(
            AddProjectArguments {
                id: id_to_string(id),
                client: id_to_string(client),
            },
        )
    }

    /// The mutation that gives the project `id` the name `name`.
    pub fn rename_project(id: Id, name: &String) -> (mutation: Mutation)
        ensures
            mutation.renames_project(id, name@),
    {
        Mutation::RenameProject(RenameProjectArguments { id: id_to_string(id), name: name.clone() })
    }

    /// The mutation that deletes the project `id`.
    pub fn delete_project(id: Id) -> (mutation: Mutation)
        ensures
            mutation.deletes_project(id),
    {
        Mutation::DeleteProject(DeleteProjectArguments { id: id_to_string(id) })
    }

    /// The mutation that adds the time block `id` of `duration` to `client`.
    pub fn add_time_block(id: Id, client: Id, duration: Duration) -> (mutation: Mutation)
        ensures
            mutation.adds_time_block(id, client, duration),
    {
        Mutation::AddTimeBlock(
            AddTimeBlockArguments {
                id: id_to_string(id),
                client: id_to_string(client),
                duration,
            },
        )
    }

    /// The mutation that gives the time block `id` the name `name`.
    pub fn rename_time_block(id: Id, name: &String) -> (mutation: Mutation)
        ensures
            mutation.renames_time_block(id, name@),
    {
        Mutation::RenameTimeBlock(
            RenameTimeBlockArguments {
                id: id_to_string(id),
                name: name.clone(),
            },
        )
    }

    /// The mutation that deletes the time block `id`.
    pub fn delete_time_block(id: Id) -> (mutation: Mutation)
        ensures
            mutation.deletes_time_block(id),
    {
        Mutation::DeleteTimeBlock(DeleteTimeBlockArguments { id: id_to_string(id) })
    }

    /// The mutation that sets the duration of the time block `id` to `duration` seconds.
    pub fn set_time_block_duration(id: Id, duration: i32) -> (mutation: Mutation)
        ensures
            mutation.sets_time_block_duration(id, duration),
    {
        Mutation::SetTimeBlockDuration(
            SetTimeBlockDurationArguments {
                id: id_to_string(id),
                duration,
            },
        )
    }

    /// The mutation that sets the billing status of the time block `id`.
    pub fn set_time_block_status(id: Id, status: TimeBlockStatus) -> (mutation: Mutation)
        ensures
            mutation.sets_time_block_status(id, status),
    {
        Mutation::SetTimeBlockStatus(SetTimeBlockStatusArguments { id: id_to_string(id), status })
    }

    /// The mutation that attaches the invoice `id` to `time_block`.
    pub fn add_invoice(id: Id, time_block: Id) -> (mutation: Mutation)
        ensures
            mutation.adds_invoice(id, time_block),
    {
        Mutation::AddInvoice(
            AddInvoiceArguments {
                id: id_to_string(id),
                time_block: id_to_string(time_block),
            },
        )
    }

    /// The mutation that files the invoice `id` under `custom_id`.
    pub fn set_invoice_custom_id(id: Id, custom_id: &String) -> (mutation: Mutation)
        ensures
            mutation.sets_invoice_custom_id(id, custom_id@),
    {
        Mutation::SetInvoiceCustomId(
            SetInvoiceCustomIdArguments {
                id: id_to_string(id),
                custom_id: custom_id.clone(),
            },
        )
    }

    /// The mutation that sets the address of the invoice `id`.
    pub fn set_invoice_url(id: Id, url: &String) -> (mutation: Mutation)
        ensures
            mutation.sets_invoice_url(id, url@),
    {
        Mutation::SetInvoiceUrl(SetInvoiceUrlArguments { id: id_to_string(id), url: url.clone() })
    }

    /// The mutation that deletes the invoice `id`.
    pub fn delete_invoice(id: Id) -> (mutation: Mutation)
        ensures
            mutation.deletes_invoice(id),
    {
        Mutation::DeleteInvoice(DeleteInvoiceArguments { id: id_to_string(id) })
    }

    /// The mutation that adds the time entry `id`, started at `started`, to `project`.
    pub fn add_time_entry(
        id: Id,
        name: &String,
        project: Id,
        started: Timestamp,
    ) -> (mutation: Mutation)
        ensures
            mutation.adds_time_entry(id, name@, project, started),
    {
        Mutation::AddTimeEntry(
            AddTimeEntryArguments {
                id: id_to_string(id),
                name: name.clone(),
                project: id_to_string(project),
                started,
            },
        )
    }

    /// The mutation that gives the time entry `id` the name `name`.
    pub fn rename_time_entry(id: Id, name: &String) -> (mutation: Mutation)
        ensures
            mutation.renames_time_entry(id, name@),
    {
        Mutation::RenameTimeEntry(
            RenameTimeEntryArguments {
                id: id_to_string(id),
                name: name.clone(),
            },
        )
    }

    /// The mutation that deletes the time entry `id`.
    pub fn delete_time_entry(id: Id) -> (mutation: Mutation)
        ensures
            mutation.deletes_time_entry(id),
    {
        Mutation::DeleteTimeEntry(DeleteTimeEntryArguments { id: id_to_string(id) })
    }

    /// The mutation that sets the start and the stop of the time entry `id`.
    pub fn set_time_entry_times(
        id: Id,
        started: Timestamp,
        stopped: Option<Timestamp>,
    ) -> (mutation: Mutation)
        ensures
            mutation.sets_time_entry_times(id, started, stopped),
    {
        Mutation::SetTimeEntryTimes(
            SetTimeEntryTimesArguments {
                id: id_to_string(id),
                started,
                stopped,
            },
        )
    }

}

/// Whether `cmds` is the one command to send a mutation that `wanted` holds of.
pub open spec fn sends_one<M>(cmds: Seq<Command<M>>, wanted: spec_fn(Mutation) -> bool) -> bool {
    cmds.len() == 1 && (cmds[0] matches Command::Send(m) && wanted(m))
}

/// Whether `cmds` is the one command to ask `question` and to hand back
/// `then` on a yes.
pub open spec fn asks<M>(cmds: Seq<Command<M>>, question: Seq<char>, then: M) -> bool {
    cmds.len() == 1 && (cmds[0] matches Command::Confirm(text, msg) && text@ == question && msg
        == then)
}

/// Whether `cmds` is what adding an entity asks for: to send a mutation
/// that `wanted` holds of, and to hand back `then` after the next render.
pub open spec fn sends_and_then<M>(
    cmds: Seq<Command<M>>,
    wanted: spec_fn(Mutation) -> bool,
    then: M,
) -> bool {
    &&& cmds.len() == 2
    &&& cmds[0] matches Command::Send(m) && wanted(m)
    &&& cmds[1] == Command::AfterNextRender(then)
}

/// Whether `cmds` is the one command to give `field` the keyboard focus.
pub open spec fn focuses<M>(cmds: Seq<Command<M>>, field: NameField) -> bool {
    cmds.len() == 1 && cmds[0] == Command::<M>::Focus(field)
}

} // verus!
