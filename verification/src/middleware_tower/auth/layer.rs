//! The layer that puts the authentication stage around a service.

use crate::middleware_tower::auth::service::AuthService;
use vstd::prelude::*;

verus! {

/// Wraps a service in an [`AuthService`].
#[derive(Clone, Copy, Debug)]
pub struct AuthLayer;

impl AuthLayer {
    pub fn new() -> Self {
        AuthLayer
    }

    /// The authentication stage around `inner`.
    pub fn layer<S>(&self, inner: S) -> (service: AuthService<S>)
        ensures
            service.inner == inner,
    {
        AuthService { inner }
    }
}

} // verus!
