//! Points in time, as the `time` crate reads them from RFC 3339 text.

use vstd::prelude::*;

verus! {

/// A point in time with the UTC offset it was written with.
#[derive(Clone, Copy, Debug, PartialEq, Eq, Structural)]
pub struct Timestamp {
    /// Nanoseconds since the Unix epoch.
    pub unix_nanos: i128,
    /// Seconds that the written offset lies east of UTC.
    pub offset_seconds: i32,
}

/// The error of `time::OffsetDateTime::parse`. Nothing is claimed of it: it
/// is only carried from the call to where it is turned into `None`.
#[verifier::external_type_specification]
#[verifier::external_body]
pub struct ExTimeParseError(time::error::Parse);

/// The point in time that `time::OffsetDateTime::parse` reads from a text in
/// the RFC 3339 format, `None` where it refuses the text.
pub uninterp spec fn rfc3339_timestamp(text: Seq<char>) -> Option<Timestamp>;

/// Calls `time::OffsetDateTime::parse` with the well-known format
/// `Rfc3339` and takes from what it returns the Unix timestamp in
/// nanoseconds (`unix_timestamp_nanos`) and the whole seconds of its offset
/// (`offset().whole_seconds()`). The contract only names the outcome: the
/// same text always gives the same point in time or the same refusal.
#[verifier::external_body]
fn rfc3339_parse(text: &str) -> (parsed: Result<Timestamp, time::error::Parse>)
    ensures
        match parsed {
            Ok(timestamp) => rfc3339_timestamp(text@) == Some(timestamp),
            Err(_) => rfc3339_timestamp(text@) is None,
        },
{
    match time::OffsetDateTime::parse(text, &time::format_description::well_known::Rfc3339) {
        Ok(t) => Ok(
            Timestamp {
                unix_nanos: t.unix_timestamp_nanos(),
                offset_seconds: t.offset().whole_seconds(),
            },
        ),
        Err(e) => Err(e),
    }
}

impl Timestamp {
    /// Reads an RFC 3339 timestamp, `None` where the text is none.
    pub fn parse_rfc3339(text: &str) -> (parsed: Option<Timestamp>)
        ensures
            parsed == rfc3339_timestamp(text@),
    {
        match rfc3339_parse(text) {
            Ok(timestamp) => Some(timestamp),
            Err(_) => None,
        }
    }
}

} // verus!
