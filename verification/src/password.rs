//! Passwords: the hash that the user store keeps, and whether a password
//! matches it.

use vstd::prelude::*;

verus! {

/// `bcrypt::BcryptError`: that it came is all that counts here.
#[verifier::external_type_specification]
#[verifier::external_body]
pub struct ExBcryptError(bcrypt::BcryptError);

/// What `bcrypt` finds of a password and a hash: whether the password made
/// the hash, and nothing where the text is no hash.
pub uninterp spec fn password_check(password: Seq<char>, hash: Seq<char>) -> Option<bool>;

/// `bcrypt::verify`: hashes the password with the cost and the salt that the
/// hash names, and compares. An error comes where the text is no hash.
#[verifier::external_body]
pub(crate) fn verify_password(password: &str, hash: &str) -> (checked: Result<bool, bcrypt::BcryptError>)
    ensures
        checked matches Ok(matches) ==> password_check(password@, hash@) == Some(matches),
        checked is Err ==> password_check(password@, hash@) is None,
{
    bcrypt::verify(password, hash)
}

/// `bcrypt::hash` at the default cost: a hash of the password under a salt
/// that the call draws at random. Which hash it is depends on the salt; it is
/// one that `bcrypt::verify` accepts for the password.
#[verifier::external_body]
pub(crate) fn hash_password(password: &str) -> (hashed: Result<String, bcrypt::BcryptError>)
    ensures
        hashed matches Ok(hash) ==> password_check(password@, hash@) == Some(true),
{
    bcrypt::hash(password, bcrypt::DEFAULT_COST)
}

} // verus!
