//! Progress of an operation that may not have finished yet.

use vstd::prelude::*;

verus! {

/// What polling an operation yields: its result, or the fact that it is
/// still under way.
#[derive(Debug)]
pub enum Poll<T> {
    Ready(T),
    Pending,
}

impl<T> Poll<T> {
    /// Whether the operation has finished.
    pub fn is_ready(&self) -> (r: bool)
        ensures
            r == (*self is Ready),
    {
        match self {
            Poll::Ready(_) => true,
            Poll::Pending => false,
        }
    }

    /// Whether the operation is still under way.
    pub fn is_pending(&self) -> (r: bool)
        ensures
            r == (*self is Pending),
    {
        !self.is_ready()
    }
}

} // verus!
