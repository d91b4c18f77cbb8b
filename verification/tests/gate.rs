use api_rest_rust::middleware::auth::{
    admin_required, decide_identity, get_claims_from_http_request, get_claims_from_request,
    jwt_validator, role_gate, GateError, RequestContext,
};
use api_rest_rust::middleware::gate::{admit_request, RouteAccess};
use api_rest_rust::middleware::rate_limit::{
    rate_limit_middleware, RateLimitConfig, RateLimitExceeded, RateLimiter,
};
use api_rest_rust::middleware::ClientAddr;
use api_rest_rust::models::auth::{Claims, JwtConfig, TokenError};
use api_rest_rust::models::UserRole;

fn wall_clock() -> i64 {
    chrono::Utc::now().timestamp()
}

fn claims_of(role: UserRole, iat: i64, exp: i64) -> Claims {
    Claims {
        sub: "a1a2a3a4-b1b2-c1c2-d1d2-d3d4d5d6d7d8".to_string(),
        email: "test@example.com".to_string(),
        nome: "Test User".to_string(),
        role,
        iat,
        exp,
    }
}

fn config() -> JwtConfig {
    JwtConfig::new("test_secret".to_string(), 3600)
}

fn token_of(role: UserRole, iat: i64, exp: i64) -> String {
    config().generate_token(&claims_of(role, iat, exp)).unwrap()
}

fn denial(passed: Result<RequestContext, (GateError, RequestContext)>) -> GateError {
    let (error, back) = passed.unwrap_err();
    assert!(back.claims.is_none());
    error
}

#[test]
fn unexpired_claims_pass_the_identity_gate() {
    let passed = decide_identity(Ok(claims_of(UserRole::User, 1_000, 2_000)), 1_500).unwrap();
    assert_eq!((passed.iat, passed.exp), (1_000, 2_000));
    assert!(decide_identity(Ok(claims_of(UserRole::User, 1_000, 2_000)), 2_000).is_ok());
}

#[test]
fn claims_expired_a_second_ago_are_denied_as_expired() {
    for now in [1_000, 1_700_000_000, i64::MAX] {
        let claims = claims_of(UserRole::Admin, now - 100, now - 1);
        assert_eq!(decide_identity(Ok(claims), now).unwrap_err(), GateError::TokenExpired);
    }
}

#[test]
fn each_failure_is_denied_under_its_own_name() {
    assert_eq!(decide_identity(Err(TokenError::Expired), 0).unwrap_err(), GateError::TokenExpired);
    assert_eq!(decide_identity(Err(TokenError::BadSignature), 0).unwrap_err(), GateError::TokenBadSignature);
    assert_eq!(decide_identity(Err(TokenError::Malformed), 0).unwrap_err(), GateError::TokenMalformed);
    assert_eq!(decide_identity(Err(TokenError::Signing), 0).unwrap_err(), GateError::Internal);
}

#[test]
fn a_denial_has_its_status_and_its_challenge() {
    let throttled = GateError::ThrottleExceeded(RateLimitExceeded { retry_after_secs: 1, limit: 60, remaining: 0 });
    assert_eq!((throttled.status(), throttled.realm(), throttled.scope()), (429, None, None));
    let missing = GateError::TokenMissing;
    assert_eq!((missing.status(), missing.realm(), missing.scope()), (401, None, None));
    let unset = GateError::ConfigurationMissing;
    assert_eq!((unset.status(), unset.realm(), unset.scope()), (401, Some("Restricted area"), None));
    let expired = GateError::TokenExpired;
    assert_eq!(
        (expired.status(), expired.realm(), expired.scope()),
        (401, Some("Restricted area"), Some("token expired"))
    );
    for invalid in [GateError::TokenMalformed, GateError::TokenBadSignature] {
        assert_eq!(
            (invalid.status(), invalid.realm(), invalid.scope()),
            (401, Some("Restricted area"), Some("invalid token"))
        );
    }
    assert_eq!((GateError::Forbidden.status(), GateError::Forbidden.scope()), (403, None));
    assert_eq!((GateError::Internal.status(), GateError::Internal.realm()), (500, None));
}

#[test]
fn a_request_without_a_token_is_denied() {
    let config = config();
    assert_eq!(denial(jwt_validator(RequestContext::new(), Some(&config), None)), GateError::TokenMissing);
    assert_eq!(denial(jwt_validator(RequestContext::new(), None, None)), GateError::TokenMissing);
    assert_eq!(denial(admin_required(RequestContext::new(), Some(&config), None)), GateError::TokenMissing);
}

#[test]
fn a_request_that_meets_no_signing_context_is_denied() {
    let now = wall_clock();
    let token = token_of(UserRole::Admin, now, now + 3600);
    assert_eq!(denial(jwt_validator(RequestContext::new(), None, Some(&token))), GateError::ConfigurationMissing);
    assert_eq!(denial(admin_required(RequestContext::new(), None, Some(&token))), GateError::ConfigurationMissing);
}

#[test]
fn a_good_token_attaches_its_claims() {
    let config = config();
    let now = wall_clock();
    let token = token_of(UserRole::User, now, now + 3600);
    let req = jwt_validator(RequestContext::new(), Some(&config), Some(&token)).unwrap();
    let claims = get_claims_from_request(&req).unwrap();
    assert_eq!(claims.email, "test@example.com");
    assert_eq!(claims.role, UserRole::User);
    assert_eq!(claims.exp, now + 3600);
    let again = get_claims_from_http_request(&req).unwrap();
    assert_eq!((again.sub, again.iat), (claims.sub, claims.iat));
    assert!(get_claims_from_request(&RequestContext::new()).is_none());
    assert!(get_claims_from_http_request(&RequestContext::new()).is_none());
}

#[test]
fn a_token_expired_a_second_ago_is_denied_for_all_its_good_signature() {
    let config = config();
    let now = wall_clock();
    let token = token_of(UserRole::Admin, now - 10, now - 1);
    assert!(config.verify_token(&token).is_ok());
    assert_eq!(denial(jwt_validator(RequestContext::new(), Some(&config), Some(&token))), GateError::TokenExpired);
    assert_eq!(denial(admin_required(RequestContext::new(), Some(&config), Some(&token))), GateError::TokenExpired);
}

#[test]
fn tokens_that_are_not_accepted_are_denied() {
    let config = config();
    let now = wall_clock();
    let long_expired = token_of(UserRole::User, now - 7200, now - 3600);
    assert_eq!(
        denial(jwt_validator(RequestContext::new(), Some(&config), Some(&long_expired))),
        GateError::TokenExpired
    );
    assert_eq!(
        denial(jwt_validator(RequestContext::new(), Some(&config), Some("no token"))),
        GateError::TokenMalformed
    );
    let foreign = JwtConfig::new("other_secret".to_string(), 3600)
        .generate_token(&claims_of(UserRole::Admin, now, now + 3600))
        .unwrap();
    assert_eq!(
        denial(jwt_validator(RequestContext::new(), Some(&config), Some(&foreign))),
        GateError::TokenBadSignature
    );
}

#[test]
fn the_role_gate_lets_administrators_through_and_nobody_else() {
    for (iat, exp) in [(0, 1), (1_700_000_000, 1_700_003_600)] {
        let user = RequestContext { claims: Some(claims_of(UserRole::User, iat, exp)) };
        let (error, back) = role_gate(user).unwrap_err();
        assert_eq!(error, GateError::Forbidden);
        assert_eq!(back.claims.unwrap().role, UserRole::User);

        let admin = RequestContext { claims: Some(claims_of(UserRole::Admin, iat, exp)) };
        assert_eq!(role_gate(admin).unwrap().claims.unwrap().role, UserRole::Admin);
    }
    let (error, back) = role_gate(RequestContext::new()).unwrap_err();
    assert_eq!(error, GateError::Internal);
    assert!(back.claims.is_none());
}

#[test]
fn an_administrators_route_forbids_a_user_and_admits_an_administrator() {
    let config = config();
    let now = wall_clock();
    let user = token_of(UserRole::User, now, now + 3600);
    let (error, back) = admin_required(RequestContext::new(), Some(&config), Some(&user)).unwrap_err();
    assert_eq!(error, GateError::Forbidden);
    assert_eq!(back.claims.unwrap().role, UserRole::User);

    let admin = token_of(UserRole::Admin, now, now + 3600);
    let req = admin_required(RequestContext::new(), Some(&config), Some(&admin)).unwrap();
    assert_eq!(req.claims.unwrap().role, UserRole::Admin);
}

#[test]
fn a_public_route_asks_for_no_token() {
    let req = admit_request(None, None, RouteAccess::Public, None).unwrap();
    assert!(req.claims.is_none());
    let req = admit_request(None, Some(&config()), RouteAccess::Public, Some("no token")).unwrap();
    assert!(req.claims.is_none());
}

#[test]
fn the_throttle_check_comes_before_every_other() {
    let config = config();
    let now = wall_clock();
    let admin = token_of(UserRole::Admin, now, now + 3600);
    let mut limiter = RateLimiter::new(RateLimitConfig::new(60, 2));
    let ip = Some(ClientAddr::V4(7));

    let throttled = rate_limit_middleware(&mut limiter, ip);
    let first = admit_request(throttled, Some(&config), RouteAccess::AdminOnly, Some(&admin));
    assert_eq!(first.unwrap().claims.unwrap().role, UserRole::Admin);

    let throttled = rate_limit_middleware(&mut limiter, ip);
    let second = admit_request(throttled, Some(&config), RouteAccess::Protected, None);
    assert_eq!(second.unwrap_err(), GateError::TokenMissing);

    let denied = RateLimitExceeded { retry_after_secs: 1, limit: 60, remaining: 0 };
    for route in [RouteAccess::Public, RouteAccess::Protected, RouteAccess::AdminOnly] {
        let throttled = rate_limit_middleware(&mut limiter, ip);
        assert_eq!(throttled, Some(denied));
        let third = admit_request(throttled, Some(&config), route, Some(&admin));
        assert_eq!(third.unwrap_err(), GateError::ThrottleExceeded(denied));
    }
}

#[test]
fn a_request_that_is_not_throttled_meets_the_gates_of_its_route() {
    let config = config();
    let now = wall_clock();
    let user = token_of(UserRole::User, now, now + 3600);
    let admin = token_of(UserRole::Admin, now, now + 3600);
    let expired = token_of(UserRole::Admin, now - 10, now - 1);

    let req = admit_request(None, Some(&config), RouteAccess::Protected, Some(&user)).unwrap();
    assert_eq!(req.claims.unwrap().role, UserRole::User);
    let req = admit_request(None, Some(&config), RouteAccess::AdminOnly, Some(&admin)).unwrap();
    assert_eq!(req.claims.unwrap().role, UserRole::Admin);

    let forbidden = admit_request(None, Some(&config), RouteAccess::AdminOnly, Some(&user));
    assert_eq!(forbidden.unwrap_err(), GateError::Forbidden);
    for route in [RouteAccess::Protected, RouteAccess::AdminOnly] {
        assert_eq!(admit_request(None, Some(&config), route, None).unwrap_err(), GateError::TokenMissing);
        assert_eq!(
            admit_request(None, None, route, Some(&admin)).unwrap_err(),
            GateError::ConfigurationMissing
        );
        assert_eq!(
            admit_request(None, Some(&config), route, Some(&expired)).unwrap_err(),
            GateError::TokenExpired
        );
        assert_eq!(
            admit_request(None, Some(&config), route, Some("no token")).unwrap_err(),
            GateError::TokenMalformed
        );
    }
}
