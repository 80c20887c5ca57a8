//! Routing of requests by method and path.
//!
//! A router holds one service for each pair of a method and a path. Paths are
//! kept in a normal form: one leading slash and no trailing one, so that
//! `users`, `/users` and `/users/` name the same route.

pub mod extract;
pub mod path;
pub mod response;
pub mod routes;

pub use extract::{BodyString, ExtractError, ExtractService};
pub use path::normalize_path;
pub use response::IntoResponse;
pub use routes::{not_found, Routed, Router};
