//! The three states of what a page has from the remote store.
use vstd::prelude::*;

verus! {

/// A value that is fetched from the remote store: not asked for, asked for
/// and awaited, or there.
#[derive(Debug)]
pub enum RemoteData<T> {
    NotAsked,
    Loading,
    Loaded(T),
}

impl<T> RemoteData<T> {
    /// The value, if it is there.
    pub open spec fn value(self) -> Option<T> {
        match self {
            RemoteData::Loaded(data) => Some(data),
            _ => None,
        }
    }

    /// The value, if it is there.
    pub fn loaded(&self) -> (data: Option<&T>)
        ensures
            match data {
                Some(d) => self.value() == Some(*d),
                None => self.value() is None,
            },
    {
        if let RemoteData::Loaded(data) = self {
            Some(data)
        } else {
            None
        }
    }

    /// The value for changing it, if it is there. Without a value nothing
    /// is handed out and nothing can change.
    pub fn loaded_mut(&mut self) -> (data: Option<&mut T>)
        ensures
            match data {
                Some(d) => old(self).value() == Some(*d) && *final(self) == RemoteData::Loaded(
                    *final(d),
                ),
                None => old(self).value() is None && *final(self) == *old(self),
            },
    {
        if let RemoteData::Loaded(data) = self {
            Some(data)
        } else {
            None
        }
    }
}

} // verus!
