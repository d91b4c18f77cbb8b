//! Claims: who a token speaks for, in which role and until when; and the
//! signing context that turns claims into tokens and tokens into claims.

use crate::clock::{unix_now, UNIX_NOW_LIMIT};
use crate::models::user::UserRole;
use crate::payload::{
    failure_of, is_flat, members, open_token, payload_new, payload_number, payload_put_number,
    payload_put_text, payload_text, sign_payload, signed_token, token_members, JwtFailure, Member,
};
use crate::user_id::{format_id, id_of_text, id_text, parse_id, NIL_USER_ID};
use vstd::prelude::*;

verus! {

/// The longest life that a token can be given, in seconds: with it the time
/// of expiry still fits in 64 signed bits, whatever the clock reads.
pub const MAX_EXPIRES_IN_SECONDS: i64 = 0x7ffe_ffff_ffff_ffff;

/// The signed content of a token.
#[derive(Debug, Clone)]
pub struct Claims {
    /// The user's identifier, as text.
    pub sub: String,
    pub email: String,
    /// The user's display name.
    pub nome: String,
    pub role: UserRole,
    /// When the token was issued, in seconds since the Unix epoch.
    pub iat: i64,
    /// When the token expires, in seconds since the Unix epoch.
    pub exp: i64,
}

/// Claims as plain values.
pub struct ClaimsView {
    pub sub: Seq<char>,
    pub email: Seq<char>,
    pub nome: Seq<char>,
    pub role: UserRole,
    pub iat: int,
    pub exp: int,
}

impl View for Claims {
    type V = ClaimsView;

    open spec fn view(&self) -> ClaimsView {
        ClaimsView {
            sub: self.sub@,
            email: self.email@,
            nome: self.nome@,
            role: self.role,
            iat: self.iat as int,
            exp: self.exp as int,
        }
    }
}

/// The subject of a token does not spell a user identifier.
#[derive(Debug, Clone, Copy, PartialEq, Eq, Structural)]
pub struct InvalidUserId;

/// The text of the member `name`, where `object` has it and it is a string.
pub open spec fn text_member(object: Map<Seq<char>, Member>, name: Seq<char>) -> Option<Seq<char>> {
    if object.contains_key(name) {
        match object[name] {
            Member::Text(text) => Some(text),
            _ => None,
        }
    } else {
        None
    }
}

/// The number of the member `name`, where `object` has it and it is an
/// integer.
pub open spec fn number_member(object: Map<Seq<char>, Member>, name: Seq<char>) -> Option<int> {
    if object.contains_key(name) {
        match object[name] {
            Member::Number(number) => Some(number),
            _ => None,
        }
    } else {
        None
    }
}

/// The claim set of a token as a JSON object: six members, the role by its
/// name and the two times as numbers.
pub open spec fn claim_members(claims: ClaimsView) -> Map<Seq<char>, Member> {
    Map::<Seq<char>, Member>::empty().insert("sub"@, Member::Text(claims.sub)).insert(
        "email"@,
        Member::Text(claims.email),
    ).insert("nome"@, Member::Text(claims.nome)).insert(
        "role"@,
        Member::Text(claims.role.claim_text()),
    ).insert("iat"@, Member::Number(claims.iat)).insert("exp"@, Member::Number(claims.exp))
}

/// The claims that a JSON object spells: it has the six members, each of its
/// kind, and the role is one of the two. Members beyond the six do not count.
pub open spec fn claims_of_members(object: Map<Seq<char>, Member>) -> Option<ClaimsView> {
    match (
        text_member(object, "sub"@),
        text_member(object, "email"@),
        text_member(object, "nome"@),
        text_member(object, "role"@),
        number_member(object, "iat"@),
        number_member(object, "exp"@),
    ) {
        (Some(sub), Some(email), Some(nome), Some(role_text), Some(iat), Some(exp)) => match UserRole::of_claim_text(
            role_text,
        ) {
            Some(role) => Some(ClaimsView { sub, email, nome, role, iat, exp }),
            None => None,
        },
        _ => None,
    }
}

/// The six member names differ from one another.
proof fn lemma_member_names_differ()
    ensures
        "sub"@ != "email"@,
        "sub"@ != "nome"@,
        "sub"@ != "role"@,
        "sub"@ != "iat"@,
        "sub"@ != "exp"@,
        "email"@ != "nome"@,
        "email"@ != "role"@,
        "email"@ != "iat"@,
        "email"@ != "exp"@,
        "nome"@ != "role"@,
        "nome"@ != "iat"@,
        "nome"@ != "exp"@,
        "role"@ != "iat"@,
        "role"@ != "exp"@,
        "iat"@ != "exp"@,
{
    reveal_strlit("sub");
    reveal_strlit("email");
    reveal_strlit("nome");
    reveal_strlit("role");
    reveal_strlit("iat");
    reveal_strlit("exp");
    assert("sub"@[0] == 's');
    assert("email"@[0] == 'e');
    assert("nome"@[0] == 'n');
    assert("role"@[0] == 'r');
    assert("iat"@[0] == 'i');
    assert("exp"@[0] == 'e');
    assert("email"@.len() == 5);
    assert("exp"@.len() == 3);
}

/// What is written into a claim set is read back from it: the object made
/// of claims spells those claims.
pub proof fn lemma_claims_round_trip(claims: ClaimsView)
    ensures
        claims_of_members(claim_members(claims)) == Some(claims),
{
    lemma_member_names_differ();
    claims.role.lemma_claim_text_round_trip();
}

impl Claims {
    /// Expiry comes after issue.
    pub open spec fn valid(&self) -> bool {
        self.exp > self.iat
    }

    /// Claims for the user `user_id`, issued at `now` for
    /// `expires_in_seconds`.
    pub fn issued_at(
        user_id: u128,
        email: String,
        nome: String,
        role: UserRole,
        now: i64,
        expires_in_seconds: i64,
    ) -> (claims: Self)
        requires
            i64::MIN <= now + expires_in_seconds <= i64::MAX,
        ensures
            claims@ == (ClaimsView {
                sub: id_text(user_id),
                email: email@,
                nome: nome@,
                role,
                iat: now as int,
                exp: now + expires_in_seconds,
            }),
            id_of_text(claims@.sub) == Some(user_id),
            claims.valid() <==> expires_in_seconds > 0,
    {
        Self { sub: format_id(user_id), email, nome, role, iat: now, exp: now + expires_in_seconds }
    }

    /// Claims for the user `user_id`, issued at the moment of the call for
    /// `expires_in_seconds`.
    pub fn new(user_id: u128, email: String, nome: String, role: UserRole, expires_in_seconds: i64) -> (claims:
        Self)
        requires
            expires_in_seconds <= MAX_EXPIRES_IN_SECONDS,
        ensures
            claims@.sub == id_text(user_id),
            id_of_text(claims@.sub) == Some(user_id),
            claims@.email == email@,
            claims@.nome == nome@,
            claims.role == role,
            0 <= claims.iat < UNIX_NOW_LIMIT,
            claims.exp == claims.iat + expires_in_seconds,
            claims.valid() <==> expires_in_seconds > 0,
    {
        let now = unix_now();
        Self::issued_at(user_id, email, nome, role, now, expires_in_seconds)
    }

    /// The identifier of the user that the token speaks for.
    pub fn get_user_id(&self) -> (id: Result<u128, InvalidUserId>)
        ensures
            match id {
                Ok(user_id) => id_of_text(self@.sub) == Some(user_id),
                Err(_) => id_of_text(self@.sub) is None,
            },
    {
        match parse_id(self.sub.as_str()) {
            Ok(user_id) => Ok(user_id),
            Err(_) => Err(InvalidUserId),
        }
    }

    /// Whether the token has expired at `now`: the second of expiry itself
    /// still counts as valid.
    pub open spec fn expired_at(&self, now: int) -> bool {
        now > self.exp
    }

    /// Whether the token has expired at `now`.
    pub fn is_expired_at(&self, now: i64) -> (expired: bool)
        ensures
            expired == self.expired_at(now as int),
            now == self.exp + 1 ==> expired,
    {
        now > self.exp
    }

    /// Whether the token has expired at the moment of the call.
    pub fn is_expired(&self) -> (expired: bool)
        ensures
            exists|now: int| 0 <= now < UNIX_NOW_LIMIT && expired == #[trigger] self.expired_at(now),
            self.exp < 0 ==> expired,
            self.exp >= UNIX_NOW_LIMIT - 1 ==> !expired,
    {
        let now = unix_now();
        self.is_expired_at(now)
    }

    pub fn is_admin(&self) -> (admin: bool)
        ensures
            admin == (self.role == UserRole::Admin),
    {
        match self.role {
            UserRole::Admin => true,
            UserRole::User => false,
        }
    }

    /// The claim set as a JSON object.
    pub fn to_payload(&self) -> (payload: serde_json::Map<String, serde_json::Value>)
        ensures
            members(payload) == claim_members(self@),
            is_flat(payload),
    {
        let mut payload = payload_new();
        payload_put_text(&mut payload, "sub", self.sub.as_str());
        payload_put_text(&mut payload, "email", self.email.as_str());
        payload_put_text(&mut payload, "nome", self.nome.as_str());
        payload_put_text(&mut payload, "role", self.role.as_claim());
        payload_put_number(&mut payload, "iat", self.iat);
        payload_put_number(&mut payload, "exp", self.exp);
        payload
    }

    /// The claims that a JSON object spells, if it spells any.
    pub fn from_payload(payload: &serde_json::Map<String, serde_json::Value>) -> (claims: Option<Self>)
        ensures
            match claims_of_members(members(*payload)) {
                Some(spelled) => claims matches Some(found) && found@ == spelled,
                None => claims is None,
            },
    {
        let sub = payload_text(payload, "sub");
        let email = payload_text(payload, "email");
        let nome = payload_text(payload, "nome");
        let role_text = payload_text(payload, "role");
        let iat = payload_number(payload, "iat");
        let exp = payload_number(payload, "exp");
        match (sub, email, nome, role_text, iat, exp) {
            (Some(sub), Some(email), Some(nome), Some(role_text), Some(iat), Some(exp)) => {
                match UserRole::from_claim(role_text.as_str()) {
                    Some(role) => Some(Self { sub, email, nome, role, iat, exp }),
                    None => None,
                }
            },
            _ => None,
        }
    }
}

/// Why a token is not accepted, or could not be made.
#[derive(Debug, Clone, Copy, PartialEq, Eq, Structural)]
pub enum TokenError {
    /// The token is not a token, or its claim set is not one of this
    /// library.
    Malformed,
    /// The signature is not the one that the secret gives.
    BadSignature,
    /// The time of expiry has passed.
    Expired,
    /// The signing backend could not sign. No claim set of this library
    /// brings that about.
    Signing,
}

/// How a failure of the backend counts: a wrong signature and an expired
/// token under their own names, anything else as malformed.
pub open spec fn token_error_of(failure: JwtFailure) -> TokenError {
    match failure {
        JwtFailure::InvalidSignature => TokenError::BadSignature,
        JwtFailure::ExpiredSignature => TokenError::Expired,
        _ => TokenError::Malformed,
    }
}

/// What verification returns for an outcome of the backend: the claims that
/// the claim set spells, `Malformed` where it spells none, and for a failure
/// the error that it counts as.
pub open spec fn verified_of(opened: Result<Map<Seq<char>, Member>, JwtFailure>) -> Result<ClaimsView, TokenError> {
    match opened {
        Ok(object) => match claims_of_members(object) {
            Some(claims) => Ok(claims),
            None => Err(TokenError::Malformed),
        },
        Err(failure) => Err(token_error_of(failure)),
    }
}

/// An outcome of the backend's check, the claim set by its members.
pub open spec fn members_of(opened: Result<serde_json::Map<String, serde_json::Value>, JwtFailure>) -> Result<
    Map<Seq<char>, Member>,
    JwtFailure,
> {
    match opened {
        Ok(payload) => Ok(members(payload)),
        Err(failure) => Err(failure),
    }
}

/// A result of verification, the claims as plain values.
pub open spec fn view_of(verified: Result<Claims, TokenError>) -> Result<ClaimsView, TokenError> {
    match verified {
        Ok(claims) => Ok(claims@),
        Err(error) => Err(error),
    }
}

/// Whether a token carries `claims` under a secret: the backend finds a
/// claim set in it, and the claim set spells them.
pub open spec fn carries(secret: Seq<char>, token: Seq<char>, claims: ClaimsView) -> bool {
    token_members(secret, token) matches Some(object) && claims_of_members(object) == Some(claims)
}

/// Whether `verified` is a result that the verification of a token under a
/// secret can give: claims only where the token carries them, and never the
/// error of signing.
pub open spec fn verifies(secret: Seq<char>, token: Seq<char>, verified: Result<Claims, TokenError>) -> bool {
    match verified {
        Ok(found) => carries(secret, token, found@),
        Err(error) => error != TokenError::Signing,
    }
}

/// The signing context: the shared secret and the life of the tokens that
/// it issues. The secret is for signing only: the type has no way to print
/// it.
#[derive(Clone)]
pub struct JwtConfig {
    pub secret: String,
    pub expires_in_seconds: i64,
}

impl JwtConfig {
    pub fn new(secret: String, expires_in_seconds: i64) -> (config: Self)
        ensures
            config.secret == secret,
            config.expires_in_seconds == expires_in_seconds,
    {
        Self { secret, expires_in_seconds }
    }

    /// Signs claims into a token. A token always comes, and it is a function
    /// of the secret and the claims: the same claims give the same token.
    pub fn generate_token(&self, claims: &Claims) -> (token: Result<String, TokenError>)
        ensures
            token matches Ok(text) && text@ == signed_token(self.secret@, claim_members(claims@)),
    {
        let payload = claims.to_payload();
        match sign_payload(self.secret.as_str(), &payload) {
            Ok(text) => Ok(text),
            Err(_) => Err(TokenError::Signing),
        }
    }

    /// What an outcome of the backend's check means: the claims that the
    /// claim set spells, `Malformed` where it spells none, and for a failure
    /// the error that it counts as.
    pub fn claims_of_opened(opened: Result<serde_json::Map<String, serde_json::Value>, JwtFailure>) -> (verified:
        Result<Claims, TokenError>)
        ensures
            view_of(verified) == verified_of(members_of(opened)),
    {
        match opened {
            Ok(payload) => match Claims::from_payload(&payload) {
                Some(claims) => Ok(claims),
                None => Err(TokenError::Malformed),
            },
            Err(failure) => Err(
                match failure {
                    JwtFailure::InvalidSignature => TokenError::BadSignature,
                    JwtFailure::ExpiredSignature => TokenError::Expired,
                    _ => TokenError::Malformed,
                },
            ),
        }
    }

    /// Checks a token: its form, its signature under the secret, and that it
    /// had not expired by more than a minute when the backend read the clock.
    /// Returns the claims that the token carries under the secret. Whether
    /// the backend accepts the token is for the backend to say; the result
    /// is what `verified_of` makes of its outcome, and claims come only
    /// from the claim set of this token. Whether the token has expired by
    /// now is for the caller to ask of the claims.
    pub fn verify_token(&self, token: &str) -> (verified: Result<Claims, TokenError>)
        ensures
            exists|opened: Result<Map<Seq<char>, Member>, JwtFailure>|
                view_of(verified) == #[trigger] verified_of(opened) && (opened matches Ok(object)
                    ==> token_members(self.secret@, token@) == Some(object)),
            verifies(self.secret@, token@, verified),
    {
        let opened = match open_token(self.secret.as_str(), token) {
            Ok(payload) => Ok(payload),
            Err(error) => Err(failure_of(&error)),
        };
        let verified = Self::claims_of_opened(opened);
        assert(view_of(verified) == verified_of(members_of(opened)));
        verified
    }
}


/// What a token says, for display.
#[derive(Debug)]
pub struct TokenInfo {
    /// The user's identifier, nil where the subject spells none.
    pub user_id: u128,
    pub email: String,
    pub nome: String,
    pub role: UserRole,
    /// When the token expires, in seconds since the Unix epoch.
    pub expires_at: i64,
}

/// The identifier that a subject spells, nil where it spells none.
pub open spec fn id_or_nil(subject: Seq<char>) -> u128 {
    match id_of_text(subject) {
        Some(id) => id,
        None => NIL_USER_ID,
    }
}

impl Claims {
    /// The claims of a refreshed token: the same subject, email, name and
    /// role, issued at `now` for `expires_in_seconds`.
    pub open spec fn refreshed(self, now: int, expires_in_seconds: int) -> ClaimsView {
        ClaimsView {
            sub: self.sub@,
            email: self.email@,
            nome: self.nome@,
            role: self.role,
            iat: now,
            exp: now + expires_in_seconds,
        }
    }

    /// The claims that take the place of these when a token is refreshed at
    /// `now`. They speak for the same user in the same role, and they are
    /// issued later than these unless `now` is not later.
    pub fn refreshed_at(self, now: i64, expires_in_seconds: i64) -> (fresh: Self)
        requires
            i64::MIN <= now + expires_in_seconds <= i64::MAX,
        ensures
            fresh@ == self.refreshed(now as int, expires_in_seconds as int),
            fresh@.sub == self@.sub,
            fresh@.email == self@.email,
            fresh@.nome == self@.nome,
            fresh.role == self.role,
            now > self.iat ==> fresh.iat > self.iat,
            fresh.valid() <==> expires_in_seconds > 0,
    {
        Self {
            sub: self.sub,
            email: self.email,
            nome: self.nome,
            role: self.role,
            iat: now,
            exp: now + expires_in_seconds,
        }
    }

    /// What the claims say, for display.
    pub open spec fn info(self) -> TokenInfo {
        TokenInfo {
            user_id: id_or_nil(self@.sub),
            email: self.email,
            nome: self.nome,
            role: self.role,
            expires_at: self.exp,
        }
    }

    /// The identifier of the user that the token speaks for, nil where the
    /// subject spells none.
    pub fn user_id_or_nil(&self) -> (id: u128)
        ensures
            id == id_or_nil(self@.sub),
    {
        match self.get_user_id() {
            Ok(id) => id,
            Err(_) => NIL_USER_ID,
        }
    }
}

impl From<Claims> for TokenInfo {
    fn from(claims: Claims) -> (info: Self) {
        let user_id = claims.user_id_or_nil();
        TokenInfo {
            user_id,
            email: claims.email,
            nome: claims.nome,
            role: claims.role,
            expires_at: claims.exp,
        }
    }
}

impl vstd::std_specs::convert::FromSpecImpl<Claims> for TokenInfo {
    open spec fn obeys_from_spec() -> bool {
        true
    }

    open spec fn from_spec(claims: Claims) -> Self {
        claims.info()
    }
}

} // verus!
