//! Authentication: a request without a credential is answered with 401 and
//! goes no further.

pub mod body;
pub mod future;
pub mod layer;
pub mod service;

pub use body::create_unauthorized_response;
pub use body::AuthResponseBody;
pub use future::AuthResponseFuture;
pub use layer::AuthLayer;
pub use service::AuthService;
