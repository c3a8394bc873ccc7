//! The wall clock and fresh identifiers, read through `chrono` and `uuid`.
use vstd::prelude::*;

verus! {

/// The current time as an RFC 3339 string (`chrono::Utc::now().to_rfc3339()`).
/// Its value depends on the clock; all that is promised is that it is not
/// empty (chrono always writes the date).
#[verifier::external_body]
pub(crate) fn now_rfc3339() -> (r: String)
    ensures
        r@.len() > 0,
{
    chrono::Utc::now().to_rfc3339()
}

/// The current time in whole seconds since 1970-01-01 UTC
/// (`chrono::Utc::now().timestamp()`). Its value depends on the clock; all
/// that is promised is that it is not negative (chrono builds it from the
/// time elapsed since the epoch, and panics on a clock set before it).
#[verifier::external_body]
pub(crate) fn now_unix_seconds() -> (r: i64)
    ensures
        r >= 0,
{
    chrono::Utc::now().timestamp()
}

/// A random version-4 UUID in its hyphenated text form
/// (`uuid::Uuid::new_v4().to_string()`): always 36 characters long, the
/// only property this library relies on.
#[verifier::external_body]
pub(crate) fn new_uuid_string() -> (r: String)
    ensures
        r@.len() == 36,
{
    uuid::Uuid::new_v4().to_string()
}

} // verus!
