//! User identifiers: 128-bit values that a token carries as text.

use vstd::prelude::*;

verus! {

/// `uuid::Error`: that it came is all that counts here.
#[verifier::external_type_specification]
#[verifier::external_body]
pub struct ExUuidError(uuid::Error);

/// The identifier that stands for "no user": all bits zero.
pub const NIL_USER_ID: u128 = 0;

/// The text that `uuid` writes for an identifier: 32 lower-case hexadecimal
/// digits in five groups, with hyphens between them.
pub uninterp spec fn id_text(id: u128) -> Seq<char>;

/// The identifier that `uuid` reads from a text, if it reads one.
pub uninterp spec fn id_of_text(text: Seq<char>) -> Option<u128>;

/// `Uuid::from_u128`, then `to_string`: the identifier as text. What `uuid`
/// writes it also reads back.
#[verifier::external_body]
pub(crate) fn format_id(id: u128) -> (text: String)
    ensures
        text@ == id_text(id),
        id_of_text(text@) == Some(id),
{
    uuid::Uuid::from_u128(id).to_string()
}

/// `Uuid::parse_str`, then `as_u128`: the identifier that a text spells, or
/// the error where it spells none.
#[verifier::external_body]
pub(crate) fn parse_id(text: &str) -> (parsed: Result<u128, uuid::Error>)
    ensures
        parsed matches Ok(id) ==> id_of_text(text@) == Some(id),
        parsed is Err ==> id_of_text(text@) is None,
{
    uuid::Uuid::parse_str(text).map(|id| id.as_u128())
}

/// `Uuid::new_v4`, then `as_u128`: an identifier drawn at random. Nothing is
/// stated of it.
#[verifier::external_body]
pub(crate) fn random_id() -> (id: u128) {
    uuid::Uuid::new_v4().as_u128()
}

} // verus!
