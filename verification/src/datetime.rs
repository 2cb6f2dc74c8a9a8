//! Date-time text as the backend stores it.
//!
//! The backend keeps a ticket definition's start and expiry as ISO-8601
//! text.  This crate does not restate that grammar; it keeps of a parsed
//! date-time only the plain value the rest of the logic needs, the instant
//! as a Unix timestamp in seconds.

use vstd::prelude::*;

verus! {

/// The instant, in Unix seconds, that the given ISO-8601 text denotes, or
/// `None` where the text is not a valid ISO-8601 date-time.  Uninterpreted:
/// the grammar lives in the outside parser, and the one fact the library
/// relies on is that the outcome is a function of the text alone.
pub uninterp spec fn iso_timestamp_of(s: Seq<char>) -> Option<i64>;

/// Relies on `time::UtcDateTime::parse` with the ISO-8601 well-known
/// format, whose outcome depends on the input text alone, and on
/// `time::UtcDateTime::unix_timestamp` to reduce the parsed instant to
/// plain seconds.
#[verifier::external_body]
pub(crate) fn parse_iso_datetime(s: &str) -> (r: Option<i64>)
    ensures
        r == iso_timestamp_of(s@),
{
    match time::UtcDateTime::parse(s, &time::format_description::well_known::Iso8601::DEFAULT) {
        Ok(dt) => Some(dt.unix_timestamp()),
        Err(_) => None,
    }
}

} // verus!
