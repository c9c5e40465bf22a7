//! The wall clock.

use vstd::prelude::*;

verus! {

/// `chrono::Utc::now().to_rfc3339()`.
/// The text depends on the time of the call; only its length is claimed:
/// the format writes a year of at most seven characters, month, day, hours,
/// minutes and seconds of two digits each, at most nine fraction digits and
/// the six-character offset, 41 characters at most.
#[verifier::external_body]
pub(crate) fn now_rfc3339() -> (date: String)
    ensures
        date@.len() <= 64,
{
    chrono::Utc::now().to_rfc3339()
}

} // verus!
