//! Signed-cookie sessions: the signing scheme, the session cookie, the
//! per-request session state and the decisions of the session middleware.
pub mod signer;
pub mod cookie;
pub mod session;
pub mod layer;
