//! The authorization gate: from a bearer token to a request that carries
//! verified claims, or to a denial.

use crate::clock::{unix_now, UNIX_NOW_LIMIT};
use crate::middleware::rate_limit::RateLimitExceeded;
use crate::models::auth::{carries, verifies, Claims, JwtConfig, TokenError};
use crate::models::user::UserRole;
use vstd::prelude::*;

verus! {

/// Why a request is turned down on its way to the handler.
#[derive(Debug, Clone, Copy, PartialEq, Eq, Structural)]
pub enum GateError {
    /// The client's bucket is empty.
    ThrottleExceeded(RateLimitExceeded),
    /// The request carries no bearer token.
    TokenMissing,
    TokenMalformed,
    TokenBadSignature,
    TokenExpired,
    /// The role does not reach, or the record is another user's.
    Forbidden,
    /// There is no signing context to check tokens with.
    ConfigurationMissing,
    /// A request came past the identity gate without claims.
    Internal,
}

impl GateError {
    /// The status to answer with.
    pub open spec fn spec_status(&self) -> u16 {
        match self {
            GateError::ThrottleExceeded(_) => 429,
            GateError::TokenMissing => 401,
            GateError::TokenMalformed => 401,
            GateError::TokenBadSignature => 401,
            GateError::TokenExpired => 401,
            GateError::ConfigurationMissing => 401,
            GateError::Forbidden => 403,
            GateError::Internal => 500,
        }
    }

    /// The scope of the challenge sent with the answer, if it has one. A
    /// token that is not accepted is called expired or invalid, and no
    /// more is told of it.
    pub open spec fn spec_scope(&self) -> Option<Seq<char>> {
        match self {
            GateError::TokenExpired => Some("token expired"@),
            GateError::TokenMalformed => Some("invalid token"@),
            GateError::TokenBadSignature => Some("invalid token"@),
            _ => None,
        }
    }

    /// The realm of the challenge sent with the answer, if it has one.
    pub open spec fn spec_realm(&self) -> Option<Seq<char>> {
        match self {
            GateError::TokenExpired => Some("Restricted area"@),
            GateError::TokenMalformed => Some("Restricted area"@),
            GateError::TokenBadSignature => Some("Restricted area"@),
            GateError::ConfigurationMissing => Some("Restricted area"@),
            _ => None,
        }
    }

    pub fn status(&self) -> (status: u16)
        ensures
            status == self.spec_status(),
    {
        match self {
            GateError::ThrottleExceeded(_) => 429,
            GateError::TokenMissing
            | GateError::TokenMalformed
            | GateError::TokenBadSignature
            | GateError::TokenExpired
            | GateError::ConfigurationMissing => 401,
            GateError::Forbidden => 403,
            GateError::Internal => 500,
        }
    }

    pub fn scope(&self) -> (scope: Option<&'static str>)
        ensures
            match scope {
                Some(text) => self.spec_scope() == Some(text@),
                None => self.spec_scope() is None,
            },
    {
        match self {
            GateError::TokenExpired => Some("token expired"),
            GateError::TokenMalformed | GateError::TokenBadSignature => Some("invalid token"),
            _ => None,
        }
    }

    pub fn realm(&self) -> (realm: Option<&'static str>)
        ensures
            match realm {
                Some(text) => self.spec_realm() == Some(text@),
                None => self.spec_realm() is None,
            },
    {
        match self {
            GateError::TokenExpired
            | GateError::TokenMalformed
            | GateError::TokenBadSignature
            | GateError::ConfigurationMissing => Some("Restricted area"),
            _ => None,
        }
    }
}

/// The identity context of a request: the claims attached to it, once it
/// has passed the identity gate.
#[derive(Debug, Clone)]
pub struct RequestContext {
    pub claims: Option<Claims>,
}

fn copy_of(claims: &Claims) -> (copy: Claims)
    ensures
        copy == *claims,
{
    Claims {
        sub: claims.sub.clone(),
        email: claims.email.clone(),
        nome: claims.nome.clone(),
        role: claims.role,
        iat: claims.iat,
        exp: claims.exp,
    }
}

impl RequestContext {
    /// The role that the request acts in, once it carries claims.
    pub open spec fn role(&self) -> Option<UserRole> {
        match self.claims {
            Some(claims) => Some(claims.role),
            None => None,
        }
    }

    /// The context of a request that has met no gate yet.
    pub fn new() -> (req: Self)
        ensures
            req.claims is None,
    {
        Self { claims: None }
    }
}

/// The claims attached to a request, for the gates that follow.
pub fn get_claims_from_request(req: &RequestContext) -> (claims: Option<Claims>)
    ensures
        claims == req.claims,
{
    match &req.claims {
        Some(claims) => Some(copy_of(claims)),
        None => None,
    }
}

/// The claims attached to a request, for its handler.
pub fn get_claims_from_http_request(req: &RequestContext) -> (claims: Option<Claims>)
    ensures
        claims == req.claims,
{
    get_claims_from_request(req)
}

/// What the identity gate makes of a verification and of a reading of the
/// clock: the claims pass unless the clock is past their expiry, and each
/// failure is denied under its own name.
pub open spec fn identity_of(verified: Result<Claims, TokenError>, now: int) -> Result<Claims, GateError> {
    match verified {
        Ok(claims) => if claims.expired_at(now) {
            Err(GateError::TokenExpired)
        } else {
            Ok(claims)
        },
        Err(TokenError::Expired) => Err(GateError::TokenExpired),
        Err(TokenError::BadSignature) => Err(GateError::TokenBadSignature),
        Err(TokenError::Malformed) => Err(GateError::TokenMalformed),
        Err(TokenError::Signing) => Err(GateError::Internal),
    }
}

/// Claims whose expiry has passed are denied as expired, however they were
/// verified: one second after the expiry, and at any time later.
pub proof fn lemma_expired_is_denied(claims: Claims, now: int)
    requires
        now > claims.exp,
    ensures
        identity_of(Ok(claims), now) == Err::<Claims, GateError>(GateError::TokenExpired),
{
}

/// The decision of the identity gate for a verification `verified` made
/// when the clock read `now`. Claims that have expired are denied, however
/// good the signature: with `now` one second past the expiry, and later.
pub fn decide_identity(verified: Result<Claims, TokenError>, now: i64) -> (decision: Result<Claims, GateError>)
    ensures
        decision == identity_of(verified, now as int),
        (verified matches Ok(claims) && now > claims.exp) ==> (decision matches Err(error) && error
            == GateError::TokenExpired),
{
    match verified {
        Ok(claims) => if claims.is_expired_at(now) {
            Err(GateError::TokenExpired)
        } else {
            Ok(claims)
        },
        Err(TokenError::Expired) => Err(GateError::TokenExpired),
        Err(TokenError::BadSignature) => Err(GateError::TokenBadSignature),
        Err(TokenError::Malformed) => Err(GateError::TokenMalformed),
        Err(TokenError::Signing) => Err(GateError::Internal),
    }
}

/// A request turned down: the denial, and the request as it came.
pub open spec fn denied(req: RequestContext, error: GateError) -> Result<
    RequestContext,
    (GateError, RequestContext),
> {
    Err((error, req))
}

/// The request after the identity gate has decided: with the claims
/// attached where they passed, and as it was, with the denial, where not.
pub open spec fn attached(req: RequestContext, decision: Result<Claims, GateError>) -> Result<
    RequestContext,
    (GateError, RequestContext),
> {
    match decision {
        Ok(claims) => Ok(RequestContext { claims: Some(claims) }),
        Err(error) => Err((error, req)),
    }
}

/// What the identity gate can make of a request: the denial for a missing
/// token, then for a missing signing context; else what it makes of some
/// result that verifying this token under this secret can give, at some
/// reading of the clock.
pub open spec fn identified(
    req: RequestContext,
    jwt_config: Option<&JwtConfig>,
    credentials: Option<&str>,
    passed: Result<RequestContext, (GateError, RequestContext)>,
) -> bool {
    match (jwt_config, credentials) {
        (_, None) => passed == denied(req, GateError::TokenMissing),
        (None, Some(_)) => passed == denied(req, GateError::ConfigurationMissing),
        (Some(config), Some(token)) => exists|verified: Result<Claims, TokenError>, now: int|
            0 <= now < UNIX_NOW_LIMIT && verifies(config.secret@, token@, verified) && passed
                == #[trigger] attached(req, identity_of(verified, now)),
    }
}

/// Whether a request that passed carries the claims of the token that it
/// presented, as the signing context reads them, and no others.
pub open spec fn presented(
    jwt_config: Option<&JwtConfig>,
    credentials: Option<&str>,
    passed: Result<RequestContext, (GateError, RequestContext)>,
) -> bool {
    match (passed, jwt_config, credentials) {
        (Ok(out), Some(config), Some(token)) => match out.claims {
            Some(claims) => carries(config.secret@, token@, claims@) && claims.exp >= 0,
            None => false,
        },
        (Ok(_), _, _) => false,
        (Err(_), _, _) => true,
    }
}

/// The identity gate. A request without a bearer token is denied, then one
/// that meets no signing context; else the token that the request presents
/// is verified under the secret of the signing context and the clock is
/// read, and the claims that the token carries are attached to the request
/// unless either says no. A denied request comes back as it was.
pub fn jwt_validator(req: RequestContext, jwt_config: Option<&JwtConfig>, credentials: Option<&str>) -> (passed:
    Result<RequestContext, (GateError, RequestContext)>)
    ensures
        identified(req, jwt_config, credentials, passed),
        presented(jwt_config, credentials, passed),
        passed matches Err((error, back)) ==> back == req && (error == GateError::TokenMissing || error
            == GateError::ConfigurationMissing || error == GateError::TokenMalformed || error
            == GateError::TokenBadSignature || error == GateError::TokenExpired),
{
    let token = match credentials {
        Some(token) => token,
        None => {
            return Err((GateError::TokenMissing, req));
        },
    };
    let jwt_config = match jwt_config {
        Some(jwt_config) => jwt_config,
        None => {
            return Err((GateError::ConfigurationMissing, req));
        },
    };
    let verified = jwt_config.verify_token(token);
    let now = unix_now();
    let passed = match decide_identity(verified, now) {
        Ok(claims) => Ok(RequestContext { claims: Some(claims) }),
        Err(error) => Err((error, req)),
    };
    assert(passed == attached(req, identity_of(verified, now as int)));
    passed
}

/// What the role gate makes of a request that has passed the identity
/// gate: an administrator passes, any other user is forbidden. A request
/// without claims should not have come this far.
pub open spec fn role_gate_of(req: RequestContext) -> Result<RequestContext, (GateError, RequestContext)> {
    match req.claims {
        Some(claims) => if claims.role == UserRole::Admin {
            Ok(req)
        } else {
            Err((GateError::Forbidden, req))
        },
        None => Err((GateError::Internal, req)),
    }
}

/// The role gate of the operations that are for administrators only.
pub fn role_gate(req: RequestContext) -> (passed: Result<RequestContext, (GateError, RequestContext)>)
    ensures
        passed == role_gate_of(req),
        req.role() == Some(UserRole::User) ==> passed == denied(req, GateError::Forbidden),
        req.role() == Some(UserRole::Admin) ==> (passed matches Ok(through) && through == req),
{
    let admin = match &req.claims {
        Some(claims) => Some(claims.is_admin()),
        None => None,
    };
    match admin {
        Some(true) => Ok(req),
        Some(false) => Err((GateError::Forbidden, req)),
        None => Err((GateError::Internal, req)),
    }
}

/// The role gate behind the identity gate: who was denied there stays
/// denied, and who passed meets the role gate.
pub open spec fn role_gated(identified: Result<RequestContext, (GateError, RequestContext)>) -> Result<
    RequestContext,
    (GateError, RequestContext),
> {
    match identified {
        Ok(req) => role_gate_of(req),
        Err(denied) => Err(denied),
    }
}

/// Behind a token that is accepted and has not expired, an operation for
/// administrators is open to an administrator and forbidden to a user.
pub proof fn lemma_admin_only(req: RequestContext, claims: Claims, now: int)
    requires
        !claims.expired_at(now),
    ensures
        claims.role == UserRole::Admin ==> role_gated(attached(req, identity_of(Ok(claims), now))) is Ok,
        claims.role == UserRole::User ==> role_gated(attached(req, identity_of(Ok(claims), now))) == denied(
            RequestContext { claims: Some(claims) },
            GateError::Forbidden,
        ),
{
}

/// What the two gates of an operation for administrators can make of a
/// request: what the role gate makes of what the identity gate can make.
pub open spec fn admin_identified(
    req: RequestContext,
    jwt_config: Option<&JwtConfig>,
    credentials: Option<&str>,
    passed: Result<RequestContext, (GateError, RequestContext)>,
) -> bool {
    match (jwt_config, credentials) {
        (_, None) => passed == denied(req, GateError::TokenMissing),
        (None, Some(_)) => passed == denied(req, GateError::ConfigurationMissing),
        (Some(config), Some(token)) => exists|verified: Result<Claims, TokenError>, now: int|
            0 <= now < UNIX_NOW_LIMIT && verifies(config.secret@, token@, verified) && passed
                == #[trigger] role_gated(attached(req, identity_of(verified, now))),
    }
}

/// What stands before the operations that are for administrators only: the
/// identity gate, then the role gate. Who passes carries the claims of the
/// token presented, and they are those of an administrator. No request is
/// lost between the two gates: the denial is never `Internal`.
pub fn admin_required(req: RequestContext, jwt_config: Option<&JwtConfig>, credentials: Option<&str>) -> (passed:
    Result<RequestContext, (GateError, RequestContext)>)
    ensures
        admin_identified(req, jwt_config, credentials, passed),
        presented(jwt_config, credentials, passed),
        match passed {
            Ok(out) => out.role() == Some(UserRole::Admin),
            Err((error, back)) => match error {
                GateError::Forbidden => back.role() == Some(UserRole::User),
                GateError::Internal => false,
                GateError::ThrottleExceeded(_) => false,
                _ => back == req,
            },
        },
{
    let first = jwt_validator(req, jwt_config, credentials);
    let ghost seen = first;
    let passed = match first {
        Ok(req) => role_gate(req),
        Err((error, req)) => Err((error, req)),
    };
    proof {
        assert(passed == role_gated(seen));
        match (jwt_config, credentials) {
            (Some(config), Some(token)) => {
                let (verified, now) = choose|verified: Result<Claims, TokenError>, now: int|
                    0 <= now < UNIX_NOW_LIMIT && verifies(config.secret@, token@, verified) && seen
                        == #[trigger] attached(req, identity_of(verified, now));
                assert(passed == role_gated(attached(req, identity_of(verified, now))));
            },
            _ => {},
        }
    }
    passed
}

} // verus!
