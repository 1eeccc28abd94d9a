//! Scalar types of the remote store.
use vstd::prelude::*;

verus! {

/// A date and time with offset, as text in RFC 3339.
#[derive(Debug)]
pub struct DateTime(pub String);

} // verus!
