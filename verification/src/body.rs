//! Response bodies that a stage writes itself.
//!
//! A stage that answers a request on its own sends a short fixed text. Such a
//! body is held in full and handed out in one piece; after that the body is at
//! its end. A body that comes from further down the pipeline is passed on
//! piece by piece, untouched.

use crate::task::Poll;
use vstd::prelude::*;

verus! {

/// What a body says of the number of bytes that it has yet to produce.
#[derive(Clone, Copy, Debug, PartialEq, Eq, Structural)]
pub struct SizeHint {
    pub lower: u64,
    pub upper: Option<u64>,
}

impl SizeHint {
    /// The hint of a body that will produce exactly `n` more bytes.
    pub fn with_exact(n: u64) -> (hint: SizeHint)
        ensures
            hint == (SizeHint { lower: n, upper: Some(n) }),
    {
        SizeHint { lower: n, upper: Some(n) }
    }
}

/// One piece of a response body: bytes that a stage wrote, or a piece that
/// came from the stage below and is passed on as it is.
#[derive(Debug)]
pub enum Frame<D> {
    Data(Vec<u8>),
    Upstream(D),
}

/// What a stage hands on of a piece that came from the stage below: the same
/// piece, marked as coming from there.
pub open spec fn passed_on<D, E>(yielded: Poll<Option<Result<D, E>>>) -> Poll<
    Option<Result<Frame<D>, E>>,
> {
    match yielded {
        Poll::Pending => Poll::Pending,
        Poll::Ready(None) => Poll::Ready(None),
        Poll::Ready(Some(Err(e))) => Poll::Ready(Some(Err(e))),
        Poll::Ready(Some(Ok(piece))) => Poll::Ready(Some(Ok(Frame::Upstream(piece)))),
    }
}

/// Marks a piece from the stage below as coming from there.
pub fn pass_on<D, E>(yielded: Poll<Option<Result<D, E>>>) -> (polled: Poll<
    Option<Result<Frame<D>, E>>,
>)
    ensures
        polled == passed_on(yielded),
{
    match yielded {
        Poll::Pending => Poll::Pending,
        Poll::Ready(None) => Poll::Ready(None),
        Poll::Ready(Some(Err(e))) => Poll::Ready(Some(Err(e))),
        Poll::Ready(Some(Ok(piece))) => Poll::Ready(Some(Ok(Frame::Upstream(piece)))),
    }
}

/// A body that is held in full. It produces its bytes in one piece, unless it
/// is empty, and nothing after that.
#[derive(Debug)]
pub struct Full {
    data: Vec<u8>,
}

impl View for Full {
    type V = Seq<u8>;

    /// The bytes that the body has yet to produce.
    closed spec fn view(&self) -> Seq<u8> {
        self.data@
    }
}

impl Full {
    /// A body that will produce `data`.
    pub fn new(data: Vec<u8>) -> (body: Full)
        ensures
            body@ == data@,
    {
        Full { data }
    }

    /// Hands out what is left of the body in one piece, or nothing when the
    /// body is at its end.
    pub fn poll_frame(&mut self) -> (piece: Option<Vec<u8>>)
        ensures
            final(self)@ == Seq::<u8>::empty(),
            old(self)@.len() > 0 ==> piece is Some && piece->0@ == old(self)@,
            old(self)@.len() == 0 ==> piece is None,
    {
        if self.data.len() == 0 {
            None
        } else {
            let mut piece: Vec<u8> = Vec::new();
            std::mem::swap(&mut self.data, &mut piece);
            Some(piece)
        }
    }

    /// Whether the body has produced all of its bytes.
    pub fn is_end_stream(&self) -> (at_end: bool)
        ensures
            at_end == (self@.len() == 0),
    {
        self.data.len() == 0
    }

    /// The exact number of bytes that the body has yet to produce.
    pub fn size_hint(&self) -> (hint: SizeHint)
        ensures
            hint.lower == self@.len(),
            hint.upper == Some(hint.lower),
    {
        SizeHint::with_exact(self.data.len() as u64)
    }
}

} // verus!
