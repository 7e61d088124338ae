//! Wall-clock primitives for timeout handling.
//!
//! Timeouts are observed cooperatively: testing loops ask between units of
//! work whether a deadline has passed.  Readings of the clock depend on the
//! moment of the call, so nothing is promised of their values; the loops
//! around them are verified for every reading.

use vstd::prelude::*;

verus! {

use vstd::string::StrSliceExecFns;

#[verifier::external_type_specification]
#[verifier::external_body]
pub struct ExInstant(std::time::Instant);

/// Relies on `std::time::Instant::now`: an opaque reading of the monotonic
/// clock.
#[verifier::external_body]
pub(crate) fn monotonic_now() -> std::time::Instant {
    std::time::Instant::now()
}

/// Relies on `std::time::Instant::elapsed` and `Duration`'s ordering:
/// whether at least `d` has passed since `start`.  The answer depends on the
/// moment of the call, so nothing is promised of it.
#[verifier::external_body]
pub(crate) fn elapsed_at_least(start: &std::time::Instant, d: &std::time::Duration) -> bool {
    start.elapsed() >= *d
}

/// Relies on `std::time::Instant::elapsed` and `Duration::as_millis`: whole
/// milliseconds since `start`, saturated to 64 bits.  The value depends on
/// the moment of the call, so nothing is promised of it.
#[verifier::external_body]
pub(crate) fn elapsed_millis(start: &std::time::Instant) -> u64 {
    let ms = start.elapsed().as_millis();
    if ms > u64::MAX as u128 {
        u64::MAX
    } else {
        ms as u64
    }
}

/// Relies on `std::time::Duration::from_secs`: the duration of that many
/// whole seconds.
#[verifier::external_body]
pub(crate) fn duration_from_secs(secs: u64) -> std::time::Duration {
    std::time::Duration::from_secs(secs)
}

/// Whether `humantime` accepts a string as a duration; acceptance is a
/// function of the characters alone.
pub uninterp spec fn humantime_accepts(s: Seq<char>) -> bool;

/// Relies on `humantime::parse_duration`: parses a human-readable duration
/// such as "5m" or "2h 30s"; the outcome depends on the string alone.
#[verifier::external_body]
fn humantime_parse(s: &str) -> (r: Option<std::time::Duration>)
    ensures
        r is Some <==> humantime_accepts(s@),
{
    humantime::parse_duration(s).ok()
}

/// Whether a string spells "infinite", ignoring ASCII case.
pub open spec fn spec_is_infinite(s: Seq<char>) -> bool {
    s =~= "infinite"@ || (s.len() == "infinite"@.len() && forall|i: int|
        0 <= i < s.len() ==> is_ascii_lowering(#[trigger] s[i], "infinite"@[i]))
}

/// Whether lowering `c` from an ASCII capital gives exactly `l`, or `c`
/// already is `l`.
pub open spec fn is_ascii_lowering(c: char, l: char) -> bool {
    c == l || ('A' <= c <= 'Z' && c as int + 32 == l as int)
}

/// Tells whether a string spells "infinite", ignoring ASCII case.
fn is_infinite_str(s: &str) -> (r: bool)
    ensures
        r == spec_is_infinite(s@),
{
    proof {
        reveal_strlit("infinite");
    }
    let reference = "infinite";
    if s.unicode_len() != reference.unicode_len() {
        return false;
    }
    let mut i: usize = 0;
    while i < reference.unicode_len()
        invariant
            s@.len() == "infinite"@.len(),
            reference@ == "infinite"@,
            i <= s@.len(),
            forall|k: int| 0 <= k < i ==> is_ascii_lowering(#[trigger] s@[k], "infinite"@[k]),
        decreases s@.len() - i,
    {
        let c = s.get_char(i);
        let l = reference.get_char(i);
        let lowered: bool = c == l || ('A' <= c && c <= 'Z' && c as u32 + 32 == l as u32);
        if !lowered {
            return false;
        }
        i = i + 1;
    }
    true
}

/// Parses a human-readable test duration.
///
/// The word "infinite" (in any ASCII case) means no deadline and yields
/// `None`; otherwise the string is parsed as a duration, and `None` reports
/// a string that is not one.
pub fn parse_duration(s: &str) -> (r: Option<std::time::Duration>)
    ensures
        r is Some <==> (!spec_is_infinite(s@) && humantime_accepts(s@)),
{
    if is_infinite_str(s) {
        None
    } else {
        humantime_parse(s)
    }
}

} // verus!
