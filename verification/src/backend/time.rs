//! Durations with `humantime`, and the clock with `chrono`.

use vstd::prelude::*;
use vstd::utf8::encode_utf8;

verus! {

/// The most digits that the text of a duration may hold.
///
/// Every span of a duration is a number and a unit, and no unit is longer
/// than a year of 31 557 600 seconds. With 11 digits in all, the spans add up
/// to fewer than 2^62 seconds, far from the `u64::MAX` at which the parser's
/// sum of seconds can no longer carry.
pub const MAX_DURATION_DIGITS: usize = 11;

/// How many of `bytes` are the digits `0` to `9`.
pub open spec fn digits(bytes: Seq<u8>) -> nat
    decreases bytes.len(),
{
    if bytes.len() == 0 {
        0
    } else {
        digits(bytes.drop_last()) + if 0x30 <= bytes.last() <= 0x39 {
            1nat
        } else {
            0nat
        }
    }
}

/// `humantime::DurationError`, carried through unopened.
#[verifier::external_type_specification]
#[verifier::external_body]
pub struct ExDurationError(humantime::DurationError);

/// The whole seconds of the duration that `text` spells, such as `14d` or
/// `1hour 12min`, or `None` where it spells none.
pub uninterp spec fn humantime_seconds(text: Seq<char>) -> Option<u64>;

/// Calls `humantime::parse_duration`, and `Duration::as_secs` on what it
/// returns.
///
/// Trusted: the outcome is a function of the text alone. The precondition
/// leaves out the texts of more than `MAX_DURATION_DIGITS` digits: among
/// them are those whose seconds add up to `u64::MAX`, where a carry from the
/// nanoseconds makes the call panic.
#[verifier::external_body]
pub(crate) fn duration_seconds(text: &str) -> (seconds: Result<u64, humantime::DurationError>)
    requires
        digits(encode_utf8(text@)) <= MAX_DURATION_DIGITS,
    ensures
        seconds is Ok <==> humantime_seconds(text@) is Some,
        seconds matches Ok(s) ==> humantime_seconds(text@) == Some(s),
{
    humantime::parse_duration(text).map(|duration| duration.as_secs())
}

/// Calls `chrono::Utc::now` and `DateTime::timestamp`: the seconds since the
/// start of 1970.
///
/// Trusted: nothing; the answer is the clock's.
#[verifier::external_body]
pub(crate) fn unix_now() -> (seconds: i64) {
    chrono::Utc::now().timestamp()
}

} // verus!
