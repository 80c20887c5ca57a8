//! The stages in their plain form: each decides for one request what is to
//! happen, and leaves it to its caller to wait for the stage below.

pub mod auth;
pub mod cache;
pub mod metrics;
pub mod timeout;
