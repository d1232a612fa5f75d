//! Session identifiers.
//!
//! A session identifier is the 128-bit value of a UUID. The `uuid` crate
//! draws fresh identifiers, renders them as text and reads them back; each
//! of these calls sits behind one trusted function of this module.

use vstd::prelude::*;

verus! {

/// The identifier of one live connection: the 128-bit value of a UUID.
pub type SessionId = u128;

/// The text that `uuid` renders for the identifier `id`: what
/// `Uuid::from_u128(id).to_string()` returns, the 32 lower-case hexadecimal
/// digits of `id` in groups of 8, 4, 4, 4 and 12 separated by hyphens.
pub uninterp spec fn session_id_text(id: SessionId) -> Seq<char>;

/// The identifier that `uuid` reads from `text`, if it reads one: what
/// `Uuid::parse_str(text)` returns, as a 128-bit value. The parser accepts
/// the hyphenated form and the other forms that `uuid` itself writes.
pub uninterp spec fn parsed_session_id(text: Seq<char>) -> Option<SessionId>;

/// The marks of a random (version 4) UUID: the version digit is 4 and the
/// two variant bits are `10`.
pub open spec fn is_random_uuid(id: SessionId) -> bool {
    ((id >> 76) & 0xf) == 4 && ((id >> 62) & 0x3) == 2
}

/// Draws a random version-4 UUID with `uuid::Uuid::new_v4` and returns its
/// 128-bit value (`Uuid::as_u128`).
///
/// Trusted: `new_v4` sets the version digit and the variant bits, so the
/// value carries the marks of a random UUID. Nothing else is claimed of it:
/// two calls may return the same identifier. `new_v4` panics if the
/// operating system's random source cannot be read.
#[verifier::external_body]
pub(crate) fn fresh_session_id() -> (id: SessionId)
    ensures
        is_random_uuid(id),
{
    uuid::Uuid::new_v4().as_u128()
}

/// Renders `id` with `uuid`'s `Display` impl (`Uuid::from_u128(id).to_string()`).
///
/// Trusted: the result is the text named [`session_id_text`], a function of
/// `id` alone, and `uuid`'s parser reads `id` back from it, as it does from
/// every text that `uuid` writes.
#[verifier::external_body]
pub(crate) fn render_session_id(id: SessionId) -> (text: String)
    ensures
        text@ == session_id_text(id),
        parsed_session_id(text@) == Some(id),
{
    uuid::Uuid::from_u128(id).to_string()
}

/// Parses `text` with `uuid::Uuid::parse_str` and returns the 128-bit value
/// of the UUID read (`Uuid::as_u128`), or `None` where the parser fails.
///
/// Trusted: the result is the value named [`parsed_session_id`], a function
/// of `text` alone.
#[verifier::external_body]
pub(crate) fn parse_session_id(text: &str) -> (id: Option<SessionId>)
    ensures
        id == parsed_session_id(text@),
{
    match uuid::Uuid::parse_str(text) {
        Ok(uuid) => Some(uuid.as_u128()),
        Err(_) => None,
    }
}

} // verus!
