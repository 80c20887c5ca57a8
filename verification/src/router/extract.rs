//! Taking values out of requests.

use std::marker::PhantomData;
use std::string::FromUtf8Error;
use vstd::prelude::*;
use vstd::utf8::{decode_utf8, valid_utf8};

verus! {

/// `std::string::FromUtf8Error`: why bytes are no UTF-8, carried as it is.
#[verifier::external_type_specification]
#[verifier::external_body]
pub struct ExFromUtf8Error(FromUtf8Error);

/// `String::from_utf8`: the text that the bytes encode, or an error where the
/// bytes are not UTF-8.
#[verifier::external_body]
fn string_from_utf8(bytes: Vec<u8>) -> (text: Result<String, FromUtf8Error>)
    ensures
        text.is_ok() == valid_utf8(bytes@),
        text matches Ok(decoded) ==> decoded@ == decode_utf8(bytes@),
{
    String::from_utf8(bytes)
}

/// Why nothing could be taken out of a request.
#[derive(Clone, Copy, Debug, PartialEq, Eq, Structural)]
pub enum ExtractError {
    /// The body is not UTF-8.
    InvalidUtf8,
}

/// The body of a request, read as text.
#[derive(Clone, Debug)]
pub struct BodyString(pub String);

impl BodyString {
    /// The text that the bytes of a body encode. Bytes that are not UTF-8 are
    /// refused.
    pub fn extract(body: Vec<u8>) -> (extracted: Result<BodyString, ExtractError>)
        ensures
            valid_utf8(body@) ==> (extracted matches Ok(text) && text.0@ == decode_utf8(body@)),
            !valid_utf8(body@) ==> extracted == Err::<BodyString, ExtractError>(
                ExtractError::InvalidUtf8,
            ),
    {
        match string_from_utf8(body) {
            Ok(text) => Ok(BodyString(text)),
            Err(_) => Err(ExtractError::InvalidUtf8),
        }
    }
}

/// A service for values of type `E` that are taken out of requests.
pub struct ExtractService<S, E> {
    pub inner: S,
    pub _extractor: PhantomData<E>,
}

impl<S: Clone, E> Clone for ExtractService<S, E> {
    fn clone(&self) -> Self {
        ExtractService { inner: self.inner.clone(), _extractor: PhantomData }
    }
}

impl<S, E> ExtractService<S, E> {
    pub fn new(inner: S) -> (service: Self)
        ensures
            service.inner == inner,
    {
        ExtractService { inner, _extractor: PhantomData }
    }

    /// Hands on what was taken out of a request. The wrapped service is
    /// called exactly once through `invoke`, with the value that was taken
    /// out. Where nothing could be taken out, the error is the result and the
    /// wrapped service is left alone.
    pub fn call<X, F, C>(&mut self, extracted: Result<E, X>, invoke: C) -> (result: Result<
        F,
        X,
    >) where C: FnOnce(&mut S, E) -> F
        requires
            extracted matches Ok(value) ==> forall|inner: &mut S|
                *inner == old(self).inner ==> call_requires(invoke, (inner, value)),
        ensures
            extracted matches Err(e) ==> result == Err::<F, X>(e) && *final(self) == *old(self),
            extracted matches Ok(value) ==> exists|inner: &mut S, given: F|
                {
                    &&& *inner == old(self).inner
                    &&& *final(inner) == final(self).inner
                    &&& result == Ok::<F, X>(given)
                    &&& #[trigger] call_ensures(invoke, (inner, value), given)
                },
    {
        match extracted {
            Err(e) => Err(e),
            Ok(value) => Ok(invoke(&mut self.inner, value)),
        }
    }
}

} // verus!
