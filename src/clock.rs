use vstd::prelude::*;
use crate::ranker::MILLIS_PER_DAY;

verus! {

/// UTC calendar day (counted from the Unix epoch) holding the instant `t`,
/// given in milliseconds since the epoch.
pub open spec fn day_of(t: int) -> int {
    t / (MILLIS_PER_DAY as int)
}

/// The UTC calendar day before the one holding `now`.
pub open spec fn day_before(now: int) -> int {
    day_of(now) - 1
}

/// Relies on chrono's `Utc::now` and `DateTime::timestamp_millis`: the
/// current instant in milliseconds since the Unix epoch. Nothing is known
/// of the value.
#[verifier::external_body]
pub(crate) fn now_millis() -> (r: i64) {
    chrono::Utc::now().timestamp_millis()
}

/// The UTC calendar day holding the instant `t`.
pub fn utc_day(t: i64) -> (d: i64)
    ensures
        d == day_of(t as int),
{
    if t >= 0 {
        let d: i64 = t / MILLIS_PER_DAY;
        assert(d == day_of(t as int)) by (nonlinear_arith)
            requires
                t >= 0,
                d == t / 86_400_000,
        ;
        d
    } else {
        let m: i64 = -(t + 1);
        let q: i64 = m / MILLIS_PER_DAY;
        assert(-q - 1 == day_of(t as int)) by (nonlinear_arith)
            requires
                t < 0,
                m == -(t + 1),
                q == m / 86_400_000,
        ;
        -q - 1
    }
}

/// The UTC calendar day before the one holding `now`.
pub fn yesterday(now: i64) -> (d: i64)
    ensures
        d == day_before(now as int),
{
    let d = utc_day(now);
    assert(day_of(now as int) >= -0x8000_0000_0000_0000 / 86_400_000) by (nonlinear_arith)
        requires
            now >= -0x8000_0000_0000_0000,
    ;
    d - 1
}

} // verus!
