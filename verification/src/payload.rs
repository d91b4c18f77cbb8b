//! The claim set of a token as a JSON object, and the calls that sign a claim
//! set into a token and check a token for its claim set.

use vstd::prelude::*;

verus! {

/// `serde_json::Value`, a JSON value. Nothing of it is seen here but through
/// the functions below.
#[verifier::external_type_specification]
#[verifier::external_body]
pub struct ExJsonValue(serde_json::Value);

/// `serde_json::Map`, a JSON object: what it holds is told by `members`.
#[verifier::external_type_specification]
#[verifier::external_body]
#[verifier::reject_recursive_types(K)]
#[verifier::reject_recursive_types(V)]
pub struct ExJsonMap<K, V>(serde_json::Map<K, V>);

/// `jsonwebtoken::errors::Error`, read by `failure_of` alone.
#[verifier::external_type_specification]
#[verifier::external_body]
pub struct ExJwtError(jsonwebtoken::errors::Error);

/// What one member of a JSON object holds, as far as a claim set goes.
pub enum Member {
    /// A JSON string.
    Text(Seq<char>),
    /// A JSON integer that fits in 64 signed bits.
    Number(int),
    /// Anything else.
    Other,
}

/// The members of a JSON object, by name.
pub uninterp spec fn members(payload: serde_json::Map<String, serde_json::Value>) -> Map<Seq<char>, Member>;

/// An object whose members are all strings and integers: its members say
/// all there is to it.
pub open spec fn is_flat(payload: serde_json::Map<String, serde_json::Value>) -> bool {
    forall|name: Seq<char>| #[trigger]
        members(payload).contains_key(name) ==> !(members(payload)[name] is Other)
}

/// `serde_json::Map::new`: an object without members.
#[verifier::external_body]
pub(crate) fn payload_new() -> (payload: serde_json::Map<String, serde_json::Value>)
    ensures
        members(payload) == (Map::<Seq<char>, Member>::empty()),
{
    serde_json::Map::new()
}

/// `serde_json::Map::insert` of a JSON string: the member `name` now holds
/// `text`, and the other members are as they were.
#[verifier::external_body]
pub(crate) fn payload_put_text(payload: &mut serde_json::Map<String, serde_json::Value>, name: &str, text: &str)
    ensures
        members(*final(payload)) == members(*old(payload)).insert(name@, Member::Text(text@)),
{
    payload.insert(name.to_string(), serde_json::Value::from(text));
}

/// `serde_json::Map::insert` of a JSON integer: the member `name` now holds
/// `number`, and the other members are as they were.
#[verifier::external_body]
pub(crate) fn payload_put_number(payload: &mut serde_json::Map<String, serde_json::Value>, name: &str, number: i64)
    ensures
        members(*final(payload)) == members(*old(payload)).insert(name@, Member::Number(number as int)),
{
    payload.insert(name.to_string(), serde_json::Value::from(number));
}

/// `serde_json::Map::get`, then `Value::as_str`: the text of the member
/// `name`, where the object has that member and it is a JSON string.
#[verifier::external_body]
pub(crate) fn payload_text(payload: &serde_json::Map<String, serde_json::Value>, name: &str) -> (text: Option<String>)
    ensures
        match text {
            Some(found) => members(*payload).contains_key(name@) && members(*payload)[name@] == Member::Text(
                found@,
            ),
            None => !(members(*payload).contains_key(name@) && members(*payload)[name@] is Text),
        },
{
    payload.get(name).and_then(|value| value.as_str()).map(|text| text.to_string())
}

/// `serde_json::Map::get`, then `Value::as_i64`: the number of the member
/// `name`, where the object has that member and it is a JSON integer that
/// fits in 64 signed bits.
#[verifier::external_body]
pub(crate) fn payload_number(payload: &serde_json::Map<String, serde_json::Value>, name: &str) -> (number: Option<i64>)
    ensures
        match number {
            Some(found) => members(*payload).contains_key(name@) && members(*payload)[name@] == Member::Number(
                found as int,
            ),
            None => !(members(*payload).contains_key(name@) && members(*payload)[name@] is Number),
        },
{
    payload.get(name).and_then(|value| value.as_i64())
}

/// The token that `jsonwebtoken::encode` makes of a claim set under a
/// secret: the default header, which names HMAC with SHA-256, then the claim
/// set, then the signature over both.
pub uninterp spec fn signed_token(secret: Seq<char>, claims: Map<Seq<char>, Member>) -> Seq<char>;

/// `jsonwebtoken::encode` with the default header and the key
/// `EncodingKey::from_secret` of the secret's bytes. Header and claim set are
/// written as JSON, the object's members in the order of their names, so the
/// token is a function of the secret and the members. The call succeeds: the
/// key of a secret is of the family that the default header names, an object
/// of strings and integers is written as JSON without fail, and signing with
/// HMAC gives no error.
#[verifier::external_body]
pub(crate) fn sign_payload(secret: &str, payload: &serde_json::Map<String, serde_json::Value>) -> (token: Result<
    String,
    jsonwebtoken::errors::Error,
>)
    requires
        is_flat(*payload),
    ensures
        token is Ok,
        token matches Ok(text) ==> text@ == signed_token(secret@, members(*payload)),
{
    jsonwebtoken::encode(
        &jsonwebtoken::Header::default(),
        payload,
        &jsonwebtoken::EncodingKey::from_secret(secret.as_bytes()),
    )
}

/// The claim set that `jsonwebtoken::decode` finds in a token under a
/// secret, whenever it accepts the token: the members of the JSON object in
/// the token's second part. Nothing where it accepts the token at no time.
pub uninterp spec fn token_members(secret: Seq<char>, token: Seq<char>) -> Option<Map<Seq<char>, Member>>;

/// `jsonwebtoken::decode` with the key `DecodingKey::from_secret` of the
/// secret's bytes and the default validation: the token has three parts, its
/// header names HMAC with SHA-256, its signature is the one that the secret
/// gives, its claim set is a JSON object with a number `exp`, and that time
/// was not passed by more than a minute when the call read the clock.
/// Whether the token is accepted depends on that reading, so it is not
/// stated; the claim set of an accepted token is read from the token alone.
/// The call panics on a system clock set before the first minute of the Unix
/// epoch.
#[verifier::external_body]
pub(crate) fn open_token(secret: &str, token: &str) -> (opened: Result<
    serde_json::Map<String, serde_json::Value>,
    jsonwebtoken::errors::Error,
>)
    ensures
        opened matches Ok(payload) ==> token_members(secret@, token@) == Some(members(payload)),
{
    jsonwebtoken::decode::<serde_json::Map<String, serde_json::Value>>(
        token,
        &jsonwebtoken::DecodingKey::from_secret(secret.as_bytes()),
        &jsonwebtoken::Validation::default(),
    ).map(|data| data.claims)
}

/// Why `jsonwebtoken` turned a token down, or could not make one.
#[derive(Debug, Clone, Copy, PartialEq, Eq, Structural)]
pub enum JwtFailure {
    InvalidToken,
    InvalidSignature,
    MissingRequiredClaim,
    ExpiredSignature,
    InvalidAudience,
    InvalidAlgorithm,
    Base64,
    Json,
    Utf8,
    Other,
}

/// `jsonwebtoken::errors::Error::kind`, each kind that checking a token
/// under a secret can give under its own name and the rest as `Other`.
#[verifier::external_body]
pub(crate) fn failure_of(error: &jsonwebtoken::errors::Error) -> (failure: JwtFailure) {
    match error.kind() {
        jsonwebtoken::errors::ErrorKind::InvalidToken => JwtFailure::InvalidToken,
        jsonwebtoken::errors::ErrorKind::InvalidSignature => JwtFailure::InvalidSignature,
        jsonwebtoken::errors::ErrorKind::MissingRequiredClaim(_) => JwtFailure::MissingRequiredClaim,
        jsonwebtoken::errors::ErrorKind::ExpiredSignature => JwtFailure::ExpiredSignature,
        jsonwebtoken::errors::ErrorKind::InvalidAudience => JwtFailure::InvalidAudience,
        jsonwebtoken::errors::ErrorKind::InvalidAlgorithm => JwtFailure::InvalidAlgorithm,
        jsonwebtoken::errors::ErrorKind::Base64(_) => JwtFailure::Base64,
        jsonwebtoken::errors::ErrorKind::Json(_) => JwtFailure::Json,
        jsonwebtoken::errors::ErrorKind::Utf8(_) => JwtFailure::Utf8,
        _ => JwtFailure::Other,
    }
}

} // verus!
