//! The way of a request to its handler: the throttle check, then for a
//! protected route the identity gate, then for an administrators' route the
//! role gate.

use crate::clock::UNIX_NOW_LIMIT;
use crate::middleware::auth::{
    admin_required, attached, denied, identity_of, jwt_validator, role_gated, GateError,
    RequestContext,
};
use crate::middleware::rate_limit::RateLimitExceeded;
use crate::models::auth::{carries, verifies, Claims, JwtConfig, TokenError};
use crate::models::user::UserRole;
use vstd::prelude::*;

verus! {

/// Who a route is open to.
#[derive(Debug, Clone, Copy, PartialEq, Eq, Structural)]
pub enum RouteAccess {
    /// Anybody.
    Public,
    /// The holder of a token.
    Protected,
    /// The holder of an administrator's token.
    AdminOnly,
}

/// Whether a request that reached its handler carries what its route asks
/// for: claims on a protected route, those of an administrator on an
/// administrators' route.
pub open spec fn entitled(route: RouteAccess, req: RequestContext) -> bool {
    match route {
        RouteAccess::Public => req.claims is None,
        RouteAccess::Protected => req.claims is Some,
        RouteAccess::AdminOnly => req.role() == Some(UserRole::Admin),
    }
}

/// Whether `error` is a denial that the route can give once the throttle
/// check is passed: none on a public route, and a role denial on an
/// administrators' route only.
pub open spec fn denial_fits(route: RouteAccess, error: GateError) -> bool {
    match error {
        GateError::TokenMissing
        | GateError::ConfigurationMissing
        | GateError::TokenMalformed
        | GateError::TokenBadSignature
        | GateError::TokenExpired => route != RouteAccess::Public,
        GateError::Forbidden => route == RouteAccess::AdminOnly,
        GateError::ThrottleExceeded(_) => false,
        GateError::Internal => false,
    }
}

/// What the gates of a route make of a request that has passed the throttle
/// check, for a verification `verified` of its token made when the clock
/// read `now`.
pub open spec fn gates_of(
    route: RouteAccess,
    jwt_config: Option<&JwtConfig>,
    credentials: Option<&str>,
    verified: Result<Claims, TokenError>,
    now: int,
) -> Result<RequestContext, (GateError, RequestContext)> {
    let req = RequestContext { claims: None };
    if route == RouteAccess::Public {
        Ok(req)
    } else if credentials is None {
        denied(req, GateError::TokenMissing)
    } else if jwt_config is None {
        denied(req, GateError::ConfigurationMissing)
    } else if route == RouteAccess::Protected {
        attached(req, identity_of(verified, now))
    } else {
        role_gated(attached(req, identity_of(verified, now)))
    }
}

/// Whether `verified` is a result that verifying the token presented under
/// the secret of the signing context can give. Where either is missing,
/// nothing is verified.
pub open spec fn verified_for(
    jwt_config: Option<&JwtConfig>,
    credentials: Option<&str>,
    verified: Result<Claims, TokenError>,
) -> bool {
    match (jwt_config, credentials) {
        (Some(config), Some(token)) => verifies(config.secret@, token@, verified),
        _ => true,
    }
}

/// Whether the claims that a request has attached are those that the token
/// presented carries under the secret of the signing context.
pub open spec fn bears(jwt_config: Option<&JwtConfig>, credentials: Option<&str>, req: RequestContext) -> bool {
    match (req.claims, jwt_config, credentials) {
        (Some(claims), Some(config), Some(token)) => carries(config.secret@, token@, claims@),
        (Some(_), _, _) => false,
        (None, _, _) => true,
    }
}

/// A decision of the gates without the request that it was made of.
pub open spec fn outcome_of(passed: Result<RequestContext, (GateError, RequestContext)>) -> Result<
    RequestContext,
    GateError,
> {
    match passed {
        Ok(req) => Ok(req),
        Err((error, _)) => Err(error),
    }
}

/// One request on its way to the handler. The throttle check has been made
/// by now, on the limiter and under its lock, which no longer is held: what
/// it found is `throttled`. A request that it denied goes no further,
/// whatever its route and its token; any other meets the gates of its route.
/// The handler is reached with `Ok`, and every `Err` is the answer to send.
pub fn admit_request(
    throttled: Option<RateLimitExceeded>,
    jwt_config: Option<&JwtConfig>,
    route: RouteAccess,
    credentials: Option<&str>,
) -> (admitted: Result<RequestContext, GateError>)
    ensures
        throttled matches Some(denial) ==> (admitted matches Err(error) && error == GateError::ThrottleExceeded(
            denial,
        )),
        throttled is None ==> exists|verified: Result<Claims, TokenError>, now: int|
            0 <= now < UNIX_NOW_LIMIT && verified_for(jwt_config, credentials, verified) && admitted
                == outcome_of(#[trigger] gates_of(route, jwt_config, credentials, verified, now)),
        throttled is None ==> match admitted {
            Ok(req) => entitled(route, req) && bears(jwt_config, credentials, req),
            Err(error) => denial_fits(route, error),
        },
{
    match throttled {
        Some(denial) => {
            return Err(GateError::ThrottleExceeded(denial));
        },
        None => {},
    }
    let req = RequestContext::new();
    let passed = match route {
        RouteAccess::Public => {
            assert(Ok::<RequestContext, (GateError, RequestContext)>(req) == gates_of(
                route,
                jwt_config,
                credentials,
                Err(TokenError::Malformed),
                0,
            ));
            Ok(req)
        },
        RouteAccess::Protected => {
            let passed = jwt_validator(req, jwt_config, credentials);
            proof {
                match (jwt_config, credentials) {
                    (Some(config), Some(token)) => {
                        let (verified, now) = choose|verified: Result<Claims, TokenError>, now: int|
                            0 <= now < UNIX_NOW_LIMIT && verifies(config.secret@, token@, verified) && passed
                                == #[trigger] attached(req, identity_of(verified, now));
                        assert(passed == gates_of(route, jwt_config, credentials, verified, now));
                    },
                    _ => {
                        assert(passed == gates_of(route, jwt_config, credentials, Err(TokenError::Malformed), 0));
                    },
                }
            }
            passed
        },
        RouteAccess::AdminOnly => {
            let passed = admin_required(req, jwt_config, credentials);
            proof {
                match (jwt_config, credentials) {
                    (Some(config), Some(token)) => {
                        let (verified, now) = choose|verified: Result<Claims, TokenError>, now: int|
                            0 <= now < UNIX_NOW_LIMIT && verifies(config.secret@, token@, verified) && passed
                                == #[trigger] role_gated(attached(req, identity_of(verified, now)));
                        assert(passed == gates_of(route, jwt_config, credentials, verified, now));
                    },
                    _ => {
                        assert(passed == gates_of(route, jwt_config, credentials, Err(TokenError::Malformed), 0));
                    },
                }
            }
            passed
        },
    };
    match passed {
        Ok(req) => Ok(req),
        Err((error, _)) => Err(error),
    }
}

} // verus!
