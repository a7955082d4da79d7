//! Wall-clock sampling through chrono, and verified formatting of the
//! `HH:MM:SS` timestamps that log entries carry.

use vstd::prelude::*;
use crate::strutil::{spec_two_digits, two_digit_string};

verus! {

/// Relies on chrono::Utc::now and chrono::DateTime::timestamp_millis: the
/// current instant as milliseconds since the Unix epoch. Nothing can be
/// promised of a clock reading, so this carries no contract.
#[verifier::external_body]
pub(crate) fn now_millis() -> i64 {
    chrono::Utc::now().timestamp_millis()
}

/// The second of the UTC day that a Unix-epoch millisecond count falls in;
/// readings from before the epoch are reported as the start of the day.
pub open spec fn spec_second_of_day(ms: int) -> int {
    if ms >= 0 {
        (ms / 1000) % 86400
    } else {
        0
    }
}

/// Second of the UTC day for an epoch-millisecond reading.
pub fn second_of_day(ms: i64) -> (r: u64)
    ensures
        r == spec_second_of_day(ms as int),
        r < 86400,
{
    if ms >= 0 {
        ((ms as u64) / 1000) % 86400
    } else {
        0
    }
}

/// `HH:MM:SS` for the given second of the day.
pub open spec fn spec_clock_string(t: int) -> Seq<char> {
    spec_two_digits(t / 3600) + seq![':'] + spec_two_digits((t % 3600) / 60) + seq![':']
        + spec_two_digits(t % 60)
}

/// A string that some second of the day writes as `HH:MM:SS`.
pub open spec fn is_clock_string(s: Seq<char>) -> bool {
    exists|t: int| 0 <= t < 86400 && s == spec_clock_string(t)
}

/// Writes a second of the day as `HH:MM:SS`, each part zero-padded.
pub fn format_clock(t: u64) -> (r: String)
    requires
        t < 86400,
    ensures
        r@ == spec_clock_string(t as int),
        is_clock_string(r@),
{
    let h = t / 3600;
    let m = (t % 3600) / 60;
    let s = t % 60;
    assert(h < 24 && m < 60 && s < 60);
    let mut out = two_digit_string(h);
    out.append(":");
    let mm = two_digit_string(m);
    out.append(mm.as_str());
    out.append(":");
    let ss = two_digit_string(s);
    out.append(ss.as_str());
    proof {
        reveal_strlit(":");
        assert(out@ =~= spec_clock_string(t as int));
    }
    out
}

/// The current UTC time of day as `HH:MM:SS`.
pub fn current_clock_string() -> (r: String)
    ensures
        is_clock_string(r@),
{
    let ms = now_millis();
    format_clock(second_of_day(ms))
}

} // verus!
