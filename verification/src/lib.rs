//! A composable request pipeline for a single-process HTTP server.
//!
//! A pipeline is a stack of stages (tracing, metrics, timeout, cache,
//! authentication) around one terminal handler. Each stage either lets a
//! request through to the stage below it, or answers it itself. The crate also
//! holds the life cycle of the server that runs the pipeline: accepting
//! connections, counting the ones in flight, and draining them on shutdown.
//!
//! Nothing here waits or performs I/O. A stage that has to call the stage
//! below it, poll a future or start a timer is handed a closure that does so,
//! and its contract says when that closure runs and what is done with its
//! result.

pub mod body;
pub mod echo;
pub mod error;
pub mod headers;
pub mod json;
pub mod kv;
pub mod message;
pub mod middleware;
pub mod middleware_for_axum;
pub mod middleware_for_my_service;
pub mod middleware_tower;
pub mod models;
pub mod pipeline;
pub mod router;
pub mod server;
pub mod task;
pub mod telemetry;
pub mod time;
