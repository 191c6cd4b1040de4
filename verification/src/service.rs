//! The endpoint capability: readiness, dispatch, and a load metric.

use crate::poll::Poll;
use vstd::prelude::*;

verus! {

/// An asynchronous request/response endpoint, driven in two phases:
/// `poll_ready` until it reports `Ready`, then `call` exactly once.
///
/// Implementations decide readiness and failure for themselves; the
/// balancer built on top of this trait is correct whatever they answer.
pub trait Service {
    type Request;

    type Error;

    type Future;

    /// Reports whether the endpoint can accept one more request.
    fn poll_ready(&mut self) -> (r: Poll<(), Self::Error>);

    /// Dispatches one request, handing back an in-flight response handle.
    /// Callers must first observe `Ready` from `poll_ready`.
    fn call(&mut self, req: Self::Request) -> Self::Future;
}

/// Exposes a load metric.
///
/// Implementors should choose load values so that lesser-loaded instances
/// return lesser values than higher-load instances.
pub trait Load {
    /// The load the endpoint reports, as contracts see it. An
    /// implementation that does not say otherwise reports none.
    open spec fn spec_load(&self) -> u64 {
        0
    }

    /// Reports the endpoint's current load.
    fn load(&self) -> (r: u64)
        ensures
            r == self.spec_load(),
    ;
}

} // verus!
