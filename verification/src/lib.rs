//! Request admission for an authenticated HTTP API: a per-client token-bucket
//! rate limiter, signed identity tokens, and the authorization gate that turns
//! a verified token into an allow or deny decision.

pub mod clock;
pub mod handlers;
pub mod middleware;
pub mod models;
pub mod password;
pub mod payload;
pub mod user_id;
