//! The time limit of the pipeline.

use crate::middleware_tower::timeout::TimeoutLayer;
use crate::time::{duration_from_secs, duration_of_secs};
use vstd::prelude::*;

verus! {

/// The time, in seconds, that the stage below has to answer a request.
pub const TIMEOUT_SECS: u64 = 1;

/// The timeout layer of the pipeline: one second for each request.
pub fn timeout_layer() -> (layer: TimeoutLayer)
    ensures
        layer.timeout == duration_of_secs(TIMEOUT_SECS),
{
    TimeoutLayer::new(duration_from_secs(TIMEOUT_SECS))
}

} // verus!
