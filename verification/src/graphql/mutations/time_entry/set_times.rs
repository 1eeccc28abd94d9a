//! The mutation that sets the start and the stop of a time entry.
use vstd::prelude::*;
use crate::graphql::types::DateTime;
use crate::time::Timestamp;
use crate::time::format_rfc3339;
use crate::time::rfc3339_text;

verus! {

/// What the mutation is built from.
#[derive(Debug)]
pub struct SetTimeEntryTimesArguments {
    pub id: String,
    pub started: Timestamp,
    pub stopped: Option<Timestamp>,
}

/// The input object of `updateTimeEntry`.
#[derive(Debug)]
pub struct UpdateTimeEntryInput {
    pub filter: TimeEntryFilter,
    pub set: Option<TimeEntryPatch>,
}

/// Selects the nodes that the mutation applies to.
#[derive(Debug)]
pub struct TimeEntryFilter {
    pub id: Option<StringHashFilter>,
}

/// Matches a text field against one value.
#[derive(Debug)]
pub struct StringHashFilter {
    pub eq: Option<String>,
}

/// Whether `filter` selects exactly the node whose identifier reads `id`.
pub open spec fn selects(filter: TimeEntryFilter, id: Seq<char>) -> bool {
    filter.id matches Some(by_id) && by_id.eq matches Some(text) && text@ == id
}

/// The fields that the mutation sets.
#[derive(Debug)]
pub struct TimeEntryPatch {
    pub started: Option<DateTime>,
    pub stopped: Option<DateTime>,
}

/// What the remote store answers: how many nodes the mutation touched.
#[derive(Debug)]
pub struct UpdateTimeEntryPayload {
    pub num_uids: Option<i32>,
}

/// The answer to the mutation as a whole.
#[derive(Debug)]
pub struct Mutation {
    pub update_time_entry: Option<UpdateTimeEntryPayload>,
}

/// A timestamp as the remote store expects it.
pub open spec fn wire_text(t: Timestamp) -> Option<Seq<char>> {
    rfc3339_text(t.secs as int, t.nanos as int, t.offset as int)
}

/// Whether `field` carries the text `text`.
pub open spec fn carries(field: Option<DateTime>, text: Seq<char>) -> bool {
    field matches Some(value) && value.0@ == text
}

/// Whether `patch` sets the start to the text `started` and the stop to the
/// text of `stopped`, or to nothing if there is no stop.
pub open spec fn sets(
    patch: Option<TimeEntryPatch>,
    started: Option<Seq<char>>,
    stopped: Option<Timestamp>,
) -> bool {
    match (patch, started) {
        (Some(patch), Some(started)) => carries(patch.started, started) && match stopped {
            Some(t) => match wire_text(t) {
                Some(text) => carries(patch.stopped, text),
                None => false,
            },
            None => patch.stopped is None,
        },
        _ => false,
    }
}

/// The input of the mutation: the time entry named by `args.id` gets the
/// start, and the stop if there is one. There is no input where one of the
/// two cannot be written as text.
pub fn input(args: &SetTimeEntryTimesArguments) -> (input: Option<UpdateTimeEntryInput>)
    ensures
        match input {
            Some(input) => {
                &&& selects(input.filter, args.id@)
                &&& sets(input.set, wire_text(args.started), args.stopped)
            },
            None => wire_text(args.started) is None || (args.stopped matches Some(t) && wire_text(t)
                is None),
        },
{
    let started = match format_rfc3339(&args.started) {
        Some(text) => DateTime(text),
        None => {
            return None;
        },
    };
    let stopped = match &args.stopped {
        Some(t) => match format_rfc3339(t) {
            Some(text) => Some(DateTime(text)),
            None => {
                return None;
            },
        },
        None => None,
    };
    Some(
        UpdateTimeEntryInput {
            filter: TimeEntryFilter { id: Some(StringHashFilter { eq: Some(args.id.clone()) }) },
            set: Some(TimeEntryPatch { started: Some(started), stopped }),
        },
    )
}

} // verus!
