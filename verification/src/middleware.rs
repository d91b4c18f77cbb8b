//! What stands between an inbound request and its handler.

pub mod auth;
pub mod client_addr;
pub mod error_handler;
pub mod gate;
pub mod rate_limit;

pub use auth::{
    admin_required, decide_identity, get_claims_from_http_request, get_claims_from_request,
    jwt_validator, role_gate, GateError, RequestContext,
};
pub use client_addr::{first_forwarded_entry, resolve_client, ClientAddr};
pub use gate::{admit_request, RouteAccess};
pub use error_handler::{
    bad_request_error, create_json_error_response, error_response_at, forbidden_error,
    internal_server_error, not_found_error, unauthorized_error, ErrorResponse,
};
pub use rate_limit::{
    custom_rate_limiter, default_rate_limiter, denial_for, lenient_rate_limiter,
    rate_limit_middleware, strict_rate_limiter, ClientState, RateLimitConfig, RateLimitExceeded,
    RateLimiter,
};
