//! Three-valued readiness, the result of every cooperative polling step.

use vstd::prelude::*;

verus! {

/// The outcome of polling a cooperative step: it produced a value, it has
/// nothing yet and should be tried again later, or it failed.
#[derive(Debug)]
pub enum Poll<T, E> {
    Ready(T),
    NotReady,
    Fail(E),
}

impl<T, E> Poll<T, E> {
    pub fn is_ready(&self) -> (r: bool)
        ensures
            r == (self is Ready),
    {
        match self {
            Poll::Ready(_) => true,
            _ => false,
        }
    }

    pub fn is_not_ready(&self) -> (r: bool)
        ensures
            r == (self is NotReady),
    {
        match self {
            Poll::NotReady => true,
            _ => false,
        }
    }

    pub fn is_fail(&self) -> (r: bool)
        ensures
            r == (self is Fail),
    {
        match self {
            Poll::Fail(_) => true,
            _ => false,
        }
    }
}

} // verus!
