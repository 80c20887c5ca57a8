//! The pipeline: the stages in their order around one handler.
//!
//! From the outside in: tracing, metrics, authentication, cache, timeout,
//! and the handler. A request passes the stages in this order on its way in,
//! and its response passes them in the opposite order on its way out.

pub mod body;
pub mod future;
pub mod service;

pub use body::{is_end_stream, poll_frame, size_hint, GuardedBody, PipelineBody};
pub use future::{poll, Guarded, PipelineFuture};
pub use service::{call, pipeline, poll_ready, Pipeline};
