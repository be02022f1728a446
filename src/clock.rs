//! Wall-clock time in milliseconds, for pacing progress reports.
use vstd::prelude::*;

verus! {

#[verifier::external_type_specification]
#[verifier::external_body]
pub struct ExSystemTime(std::time::SystemTime);

/// Relies on `std::time::SystemTime::now`: the current time; nothing is known of it.
#[verifier::external_body]
fn system_now() -> std::time::SystemTime {
    std::time::SystemTime::now()
}

/// Relies on `std::time::SystemTime::duration_since` with the Unix epoch:
/// `None` when the time lies before the epoch.
#[verifier::external_body]
fn since_unix_epoch(t: &std::time::SystemTime) -> Option<std::time::Duration> {
    t.duration_since(std::time::UNIX_EPOCH).ok()
}

/// Relies on `std::time::Duration::as_secs`: the whole seconds of the duration.
#[verifier::external_body]
fn whole_secs(d: &std::time::Duration) -> u64 {
    d.as_secs()
}

/// Relies on `std::time::Duration::subsec_nanos`: the fractional part in
/// nanoseconds, documented to be less than one billion.
#[verifier::external_body]
fn fraction_nanos(d: &std::time::Duration) -> (r: u32)
    ensures
        r < 1_000_000_000,
{
    d.subsec_nanos()
}

/// The whole milliseconds of a duration of `secs` seconds and `nanos` nanoseconds.
pub open spec fn millis(secs: u64, nanos: u32) -> int {
    secs as int * 1000 + nanos as int / 1_000_000
}

/// The largest number of milliseconds that a clock reading can give.
pub open spec fn max_millis() -> int {
    u64::MAX as int * 1000 + 999
}

/// Whole milliseconds of a duration given as seconds and nanoseconds.
pub fn millis_of(secs: u64, nanos: u32) -> (r: u128)
    requires
        nanos < 1_000_000_000,
    ensures
        r == millis(secs, nanos),
        r <= max_millis(),
{
    assert(secs as int * 1000 <= u64::MAX as int * 1000) by (nonlinear_arith);
    secs as u128 * 1000 + (nanos / 1_000_000) as u128
}

/// A later duration never gives fewer milliseconds.
pub proof fn lemma_millis_monotone(s1: u64, n1: u32, s2: u64, n2: u32)
    requires
        n1 < 1_000_000_000,
        n2 < 1_000_000_000,
        s1 < s2 || (s1 == s2 && n1 <= n2),
    ensures
        millis(s1, n1) <= millis(s2, n2),
{
    if s1 < s2 {
        assert(s1 as int * 1000 + 1000 <= s2 as int * 1000) by (nonlinear_arith)
            requires s1 < s2;
        assert(n1 as int / 1_000_000 < 1000);
    } else {
        assert(n1 as int / 1_000_000 <= n2 as int / 1_000_000) by (nonlinear_arith)
            requires n1 <= n2;
    }
}

/// Milliseconds since the Unix epoch; zero when the clock reads an earlier time.
pub fn get_time_since_epoch() -> (r: u128)
    ensures
        r <= max_millis(),
{
    let now = system_now();
    match since_unix_epoch(&now) {
        Some(d) => millis_of(whole_secs(&d), fraction_nanos(&d)),
        None => 0,
    }
}

} // verus!
