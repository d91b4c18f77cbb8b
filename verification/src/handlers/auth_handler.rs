//! Login, verification and refresh: the three endpoints that deal in
//! tokens.

use crate::clock::{unix_now, UNIX_NOW_LIMIT};
use crate::handlers::user_handler::StoreFailure;
use crate::middleware::auth::{decide_identity, identity_of, GateError};
use crate::models::auth::{
    carries, claim_members, claims_of_members, lemma_claims_round_trip, verifies, Claims,
    ClaimsView, JwtConfig, TokenError, MAX_EXPIRES_IN_SECONDS,
};
use crate::models::user::{LoginResponse, User, UserResponse};
use crate::password::{password_check, verify_password};
use crate::payload::signed_token;
use crate::user_id::id_text;
use vstd::prelude::*;

verus! {

/// The claims of the token that a login at `now` issues for `user`.
pub open spec fn login_claims(user: User, now: int, expires_in_seconds: int) -> ClaimsView {
    ClaimsView {
        sub: id_text(user.id),
        email: user.email@,
        nome: user.nome@,
        role: user.role,
        iat: now,
        exp: now + expires_in_seconds,
    }
}

/// What a login at `now` answers for `user`, whose password has been found
/// to match the hash on record: the user without the password, a token that
/// speaks for the user, and when it expires.
pub open spec fn logged_in(config: JwtConfig, user: User, now: int, response: LoginResponse) -> bool {
    &&& response.user == user.shown()
    &&& response.token@ == signed_token(
        config.secret@,
        claim_members(login_claims(user, now, config.expires_in_seconds as int)),
    )
    &&& response.expires_at == now + config.expires_in_seconds
}

/// The login of `user` at `now`, once the password has been found to match.
pub fn login_at(jwt_config: &JwtConfig, user: User, now: i64) -> (response: LoginResponse)
    requires
        i64::MIN <= now + jwt_config.expires_in_seconds <= i64::MAX,
    ensures
        logged_in(*jwt_config, user, now as int, response),
{
    let claims = Claims::issued_at(
        user.id,
        user.email.clone(),
        user.nome.clone(),
        user.role,
        now,
        jwt_config.expires_in_seconds,
    );
    let token = jwt_config.generate_token(&claims).unwrap();
    LoginResponse { user: UserResponse::from(user), token, expires_at: claims.exp }
}

/// What a login answers.
#[derive(Debug)]
pub enum LoginOutcome {
    /// The user is logged in: status 200.
    Issued(LoginResponse),
    /// The credentials are not valid: status 401, and no word on which of
    /// the two was wrong.
    InvalidCredentials,
    /// The store or the hasher failed: status 500.
    Failed,
}

impl LoginOutcome {
    pub open spec fn spec_status(&self) -> u16 {
        match self {
            LoginOutcome::Issued(_) => 200,
            LoginOutcome::InvalidCredentials => 401,
            LoginOutcome::Failed => 500,
        }
    }

    pub fn status(&self) -> (status: u16)
        ensures
            status == self.spec_status(),
    {
        match self {
            LoginOutcome::Issued(_) => 200,
            LoginOutcome::InvalidCredentials => 401,
            LoginOutcome::Failed => 500,
        }
    }
}

/// A login at the moment of the call, once the store has been asked for the
/// user with the email: a token is issued where there is such a user and
/// the password matches the hash on record, and on no other credentials.
pub fn login(jwt_config: &JwtConfig, found: Result<Option<User>, StoreFailure>, senha: &str) -> (outcome:
    LoginOutcome)
    requires
        jwt_config.expires_in_seconds <= MAX_EXPIRES_IN_SECONDS,
    ensures
        match found {
            Ok(Some(user)) => match password_check(senha@, user.senha@) {
                Some(true) => outcome matches LoginOutcome::Issued(response) && (exists|now: int|
                    0 <= now < UNIX_NOW_LIMIT && #[trigger] logged_in(*jwt_config, user, now, response)),
                Some(false) => outcome is InvalidCredentials,
                None => outcome is Failed,
            },
            Ok(None) => outcome is InvalidCredentials,
            Err(_) => outcome is Failed,
        },
{
    let user = match found {
        Ok(Some(user)) => user,
        Ok(None) => {
            return LoginOutcome::InvalidCredentials;
        },
        Err(_) => {
            return LoginOutcome::Failed;
        },
    };
    match verify_password(senha, user.senha.as_str()) {
        Ok(true) => {},
        Ok(false) => {
            return LoginOutcome::InvalidCredentials;
        },
        Err(_) => {
            return LoginOutcome::Failed;
        },
    }
    let now = unix_now();
    LoginOutcome::Issued(login_at(jwt_config, user, now))
}

/// What the verification endpoint answers for a token: the claims that the
/// token carries under the secret, unless the token is not accepted or has
/// expired.
pub fn verify_token(jwt_config: &JwtConfig, token: &str) -> (answer: Result<Claims, GateError>)
    ensures
        exists|verified: Result<Claims, TokenError>, now: int|
            0 <= now < UNIX_NOW_LIMIT && verifies(jwt_config.secret@, token@, verified) && answer
                == #[trigger] identity_of(verified, now),
        match answer {
            Ok(claims) => carries(jwt_config.secret@, token@, claims@) && claims.exp >= 0,
            Err(error) => error == GateError::TokenExpired || error == GateError::TokenMalformed || error
                == GateError::TokenBadSignature,
        },
{
    let verified = jwt_config.verify_token(token);
    let now = unix_now();
    decide_identity(verified, now)
}

/// A refreshed token and when it expires, in seconds since the Unix epoch.
#[derive(Debug)]
pub struct Refreshed {
    pub token: String,
    pub expires_at: i64,
}

/// What a refresh at `now` answers for a verification `verified` of the old
/// token: where the old token is accepted and has not expired, a token for
/// the refreshed claims, and always one; else the denial of the identity
/// gate.
pub open spec fn refreshed_of(
    config: JwtConfig,
    verified: Result<Claims, TokenError>,
    now: int,
    answer: Result<Refreshed, GateError>,
) -> bool {
    match identity_of(verified, now) {
        Ok(claims) => answer matches Ok(refreshed) && refreshed.token@ == signed_token(
            config.secret@,
            claim_members(claims.refreshed(now, config.expires_in_seconds as int)),
        ) && refreshed.expires_at == now + config.expires_in_seconds,
        Err(denial) => answer == Err::<Refreshed, GateError>(denial),
    }
}

/// The refresh at `now` of a token whose verification gave `verified`.
pub fn refresh_token_at(jwt_config: &JwtConfig, verified: Result<Claims, TokenError>, now: i64) -> (answer: Result<
    Refreshed,
    GateError,
>)
    requires
        i64::MIN <= now + jwt_config.expires_in_seconds <= i64::MAX,
    ensures
        refreshed_of(*jwt_config, verified, now as int, answer),
{
    match decide_identity(verified, now) {
        Ok(claims) => {
            let fresh = claims.refreshed_at(now, jwt_config.expires_in_seconds);
            let token = jwt_config.generate_token(&fresh).unwrap();
            Ok(Refreshed { token, expires_at: fresh.exp })
        },
        Err(denial) => Err(denial),
    }
}

/// The refresh of a token at the moment of the call: of the claims that
/// the old token carries under the secret. There is no limit to how often a
/// token is refreshed, as long as each is refreshed before it expires.
pub fn refresh_token(jwt_config: &JwtConfig, old_token: &str) -> (answer: Result<Refreshed, GateError>)
    requires
        jwt_config.expires_in_seconds <= MAX_EXPIRES_IN_SECONDS,
    ensures
        exists|verified: Result<Claims, TokenError>, now: int|
            0 <= now < UNIX_NOW_LIMIT && verifies(jwt_config.secret@, old_token@, verified)
                && #[trigger] refreshed_of(*jwt_config, verified, now, answer),
        answer matches Err(error) ==> error == GateError::TokenExpired || error == GateError::TokenMalformed
            || error == GateError::TokenBadSignature,
{
    let verified = jwt_config.verify_token(old_token);
    let now = unix_now();
    refresh_token_at(jwt_config, verified, now)
}

/// A refreshed token speaks for the same user in the same role: its claim
/// set spells the subject, email, name and role of the old claims. It is
/// issued at the time of the refresh, which is later than the old token's
/// issue wherever the refresh comes at least a second after it.
pub proof fn lemma_refresh_keeps_identity(claims: Claims, now: int, expires_in_seconds: int)
    ensures
        claims_of_members(claim_members(claims.refreshed(now, expires_in_seconds))) matches Some(fresh)
            && fresh.sub == claims@.sub && fresh.email == claims@.email && fresh.nome == claims@.nome
            && fresh.role == claims.role && fresh.iat == now && fresh.exp == now + expires_in_seconds,
        now > claims.iat ==> claims.refreshed(now, expires_in_seconds).iat > claims.iat,
{
    lemma_claims_round_trip(claims.refreshed(now, expires_in_seconds));
}

} // verus!
