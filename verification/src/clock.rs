//! The two values that the machine supplies: the time and fresh identifiers.

use vstd::prelude::*;

verus! {

/// The length of an identifier in hyphenated form.
pub const ID_LEN: usize = 36;

/// Whether `id` has the shape of a hyphenated identifier: 36 characters,
/// with hyphens closing the groups of 8, 4, 4 and 4.
pub open spec fn is_hyphenated(id: Seq<char>) -> bool {
    &&& id.len() == 36
    &&& id[8] == '-'
    &&& id[13] == '-'
    &&& id[18] == '-'
    &&& id[23] == '-'
}

/// The current time in milliseconds since the Unix epoch, UTC.
///
/// Trusted: calls `chrono::Utc::now` and reads the result with
/// `DateTime::timestamp_millis`. Nothing is claimed of the value, which is
/// the machine's clock. `Utc::now` stops the process if that clock stands
/// before the epoch.
#[verifier::external_body]
pub(crate) fn now_millis() -> (ms: i64) {
    chrono::Utc::now().timestamp_millis()
}

/// A fresh random identifier, as text.
///
/// Trusted: calls `uuid::Uuid::new_v4` and formats the result with the
/// crate's `Display`, which writes the hyphenated lower-case form. Only the
/// shape of that form is claimed; the digits are random. `new_v4` stops
/// the process if the system has no random bytes to give.
#[verifier::external_body]
pub(crate) fn fresh_id() -> (id: String)
    ensures
        is_hyphenated(id@),
{
    uuid::Uuid::new_v4().to_string()
}

} // verus!
