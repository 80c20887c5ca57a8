//! The records of the key-value service.

use vstd::prelude::*;

verus! {

/// A key and the value to store under it.
#[derive(Clone, Debug)]
pub struct CreateKv {
    pub key: String,
    pub value: String,
}

} // verus!
