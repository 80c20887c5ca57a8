//! The body of a response that left the cache stage.

use crate::body::SizeHint;
use crate::task::Poll;
use vstd::prelude::*;

verus! {

/// The body of the response that came from the stage below.
#[derive(Debug)]
pub struct CacheResponseBody<B> {
    pub inner: B,
}

impl<B> CacheResponseBody<B> {
    /// The body of a response from the stage below, unchanged.
    pub fn new(body: B) -> (wrapped: Self)
        ensures
            wrapped.inner == body,
    {
        CacheResponseBody { inner: body }
    }

    /// The next piece of the body: the body from the stage below is polled
    /// once through `poll_upstream`, and what that yields is the result.
    pub fn poll_frame<D, E, P>(&mut self, poll_upstream: P) -> (polled: Poll<
        Option<Result<D, E>>,
    >) where P: FnOnce(&mut B) -> Poll<Option<Result<D, E>>>
        requires
            forall|upstream: &mut B|
                *upstream == old(self).inner ==> call_requires(poll_upstream, (upstream,)),
        ensures
            exists|upstream: &mut B|
                {
                    &&& *upstream == old(self).inner
                    &&& *final(upstream) == final(self).inner
                    &&& #[trigger] call_ensures(poll_upstream, (upstream,), polled)
                },
    {
        poll_upstream(&mut self.inner)
    }

    /// Whether the body has produced all of its bytes: what the body from the
    /// stage below says of itself through `upstream`.
    pub fn is_end_stream<Q: FnOnce(&B) -> bool>(&self, upstream: Q) -> (at_end: bool)
        requires
            call_requires(upstream, (&self.inner,)),
        ensures
            call_ensures(upstream, (&self.inner,), at_end),
    {
        upstream(&self.inner)
    }

    /// How many bytes the body has yet to produce: what the body from the
    /// stage below says of itself through `upstream`.
    pub fn size_hint<Q: FnOnce(&B) -> SizeHint>(&self, upstream: Q) -> (hint: SizeHint)
        requires
            call_requires(upstream, (&self.inner,)),
        ensures
            call_ensures(upstream, (&self.inner,), hint),
    {
        upstream(&self.inner)
    }
}

} // verus!
