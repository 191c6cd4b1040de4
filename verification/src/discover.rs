//! The service-discovery capability: a lazy stream of endpoint changes.

use crate::poll::Poll;
use vstd::prelude::*;

verus! {

/// One delta of the endpoint set: a keyed insertion or a keyed removal.
#[derive(Debug)]
pub enum Change<K, S> {
    Insert(K, S),
    Remove(K),
}

/// A lazy, possibly infinite stream of endpoint changes.
///
/// `poll` yields the next change, reports `NotReady` when no delta is
/// available right now, or fails. A consumer drains the stream before every
/// selection, so a source must not answer `Ready` forever without pause:
/// `pending_changes` is the source's own bound on how many consecutive
/// `Ready` answers it can still give, and each `Ready` lowers it.
pub trait Discover {
    type Key;

    type Service;

    type Error;

    /// An upper bound on how many more changes `poll` can yield before it
    /// next reports `NotReady` or fails. A source that does not say
    /// otherwise announces nothing.
    open spec fn pending_changes(&self) -> nat {
        0
    }

    fn poll(&mut self) -> (r: Poll<Change<Self::Key, Self::Service>, Self::Error>)
        ensures
            r is Ready ==> final(self).pending_changes() < old(self).pending_changes();
}

} // verus!
