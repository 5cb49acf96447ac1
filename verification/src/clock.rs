//! The wall clock, as the operator stamps it on what it publishes.

use vstd::prelude::*;

verus! {

/// The last second that a time stamp can fall in: the end of the year 262142.
pub const LAST_SECOND: i64 = 8_210_266_876_799;

/// The last microsecond that a time stamp can name.
pub const LAST_MICROSECOND: i64 = 8_210_266_876_799_999_999;

/// Whether a moment, given in seconds since the Unix epoch and nanoseconds within the second,
/// is one that the clock can show.
pub open spec fn on_the_clock(seconds: i64, nanos: u32) -> bool {
    0 <= seconds <= LAST_SECOND && nanos < 1_000_000_000
}

/// The RFC 3339 text of a moment, given in seconds since the Unix epoch and nanoseconds within
/// the second.
pub uninterp spec fn rfc3339_of(seconds: i64, nanos: u32) -> Seq<char>;

/// Whether a text is the RFC 3339 text of a moment that the clock can show.
pub open spec fn is_stamp(stamp: Seq<char>) -> bool {
    exists|seconds: i64, nanos: u32|
        on_the_clock(seconds, nanos) && stamp == #[trigger] rfc3339_of(seconds, nanos)
}

/// `chrono::Utc::now()`, by `timestamp` in whole seconds since the Unix epoch and by
/// `timestamp_subsec_nanos` in nanoseconds within the second.
///
/// The moment lies between the epoch and the last one that a time stamp can name. Nothing else
/// is claimed of it: it depends on when the call is made. Every function that uses it has a
/// counterpart that takes the time as an argument.
#[verifier::external_body]
fn now() -> (moment: (i64, u32))
    ensures
        on_the_clock(moment.0, moment.1),
{
    let now = chrono::Utc::now();
    (now.timestamp(), now.timestamp_subsec_nanos())
}

/// `chrono::DateTime::from_timestamp`, with the epoch itself in place of a moment that no time
/// stamp can name, as RFC 3339 text by `to_rfc3339`.
///
/// The text is a function of the seconds and the nanoseconds alone; what it is, is left unsaid.
#[verifier::external_body]
pub(crate) fn moment_rfc3339(seconds: i64, nanos: u32) -> (stamp: String)
    ensures
        stamp@ == rfc3339_of(seconds, nanos),
{
    chrono::DateTime::from_timestamp(seconds, nanos).unwrap_or_default().to_rfc3339()
}

/// The current time as RFC 3339 text.
pub(crate) fn now_rfc3339() -> (stamp: String)
    ensures
        is_stamp(stamp@),
{
    let (seconds, nanos) = now();
    moment_rfc3339(seconds, nanos)
}

/// The current time in microseconds since the Unix epoch.
pub(crate) fn now_micros() -> (micros: i64)
    ensures
        0 <= micros <= LAST_MICROSECOND,
{
    let (seconds, nanos) = now();
    seconds * 1_000_000 + (nanos / 1000) as i64
}

/// The current time as RFC 3339 text and in whole seconds since the Unix epoch: both of the
/// same moment.
pub(crate) fn now_stamped() -> (moment: (String, i64))
    ensures
        0 <= moment.1 <= LAST_SECOND,
        exists|nanos: u32|
            on_the_clock(moment.1, nanos) && moment.0@ == #[trigger] rfc3339_of(moment.1, nanos),
{
    let (seconds, nanos) = now();
    (moment_rfc3339(seconds, nanos), seconds)
}

} // verus!
