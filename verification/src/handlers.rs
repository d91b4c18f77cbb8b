//! What the endpoints decide, apart from what they store and send.

pub mod auth_handler;
pub mod user_handler;
