//! What is exchanged with the remote store: the arguments and input objects
//! of its mutations, the shape of what its queries return, and the errors
//! that a request can end in.
use vstd::prelude::*;

pub mod mutations;
pub mod queries;
pub mod types;

verus! {

/// How a request to the remote store failed.
#[derive(Debug)]
pub enum GraphQLError {
    /// The request did not get through, or came back with a status that is no success.
    FetchError(String),
    /// The remote store answered with errors of its own.
    ResponseErrors(Vec<String>),
    /// The answer could not be read.
    DecodeError(String),
}

/// The outcome of a request whose answer was read: the errors, if the
/// answer lists any, else the data.
pub fn response_result<T>(data: Option<T>, errors: Option<Vec<String>>) -> (result: Result<
    T,
    GraphQLError,
>)
    requires
        errors is None ==> data is Some,
    ensures
        match errors {
            Some(list) => result == Err::<T, GraphQLError>(GraphQLError::ResponseErrors(list)),
            None => result == Ok::<T, GraphQLError>(data->0),
        },
{
    match errors {
        Some(list) => Err(GraphQLError::ResponseErrors(list)),
        None => Ok(data.unwrap()),
    }
}

} // verus!
