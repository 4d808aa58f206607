use vstd::prelude::*;

use crate::consts::{INT64_MAX, NOPTS_VALUE, TIME_BASE};

verus! {

/// Quotient of Rust's `/` on integers: rounded toward zero.
pub open spec fn trunc_div(a: int, b: int) -> int
    recommends
        b > 0,
{
    if a >= 0 {
        a / b
    } else {
        -((-a) / b)
    }
}

/// Remainder of Rust's `%` on integers: it takes the sign of the dividend.
pub open spec fn trunc_rem(a: int, b: int) -> int
    recommends
        b > 0,
{
    a - b * trunc_div(a, b)
}

/// A duration split into hours, minutes and seconds.
#[derive(Clone, Copy, Debug, PartialEq, Eq)]
pub struct Clock {
    pub hours: i64,
    pub mins: i64,
    pub secs: i64,
}

/// What the format dump reports of a container's duration.
#[derive(Clone, Copy, Debug, PartialEq, Eq)]
pub struct DurationReport {
    /// The duration in `TIME_BASE` units, rounded by 5000 units (half a
    /// hundredth of a second) where that does not overflow; 0 when unknown.
    pub duration: i64,
    /// The same duration as handed to JavaScript: truncated to 32 bits.
    pub js_duration: i32,
    /// The rounded duration split into a clock, when it is known.
    pub clock: Option<Clock>,
}

/// The rounded duration: 0 when unknown, else the duration plus 5000 units
/// where that sum stays within 64 bits.
pub open spec fn rounded_duration(duration: i64) -> int {
    if duration == NOPTS_VALUE {
        0
    } else if duration <= INT64_MAX - 5000 {
        duration + 5000
    } else {
        duration as int
    }
}

/// The clock of a duration in `TIME_BASE` units: whole seconds, then
/// minutes and hours, each truncated toward zero as Rust's `/` and `%` do.
pub open spec fn clock_of(duration: int) -> Clock {
    let total_secs = trunc_div(duration, TIME_BASE as int);
    let total_mins = trunc_div(total_secs, 60);
    Clock {
        hours: trunc_div(total_mins, 60) as i64,
        mins: trunc_rem(total_mins, 60) as i64,
        secs: trunc_rem(total_secs, 60) as i64,
    }
}

/// Computes what `av_dump_format` reports of a container's duration
/// (`AVFormatContext::duration`).
pub fn duration_report(duration: i64) -> (r: DurationReport)
    ensures
        r.duration == rounded_duration(duration),
        r.js_duration == r.duration as i32,
        duration == NOPTS_VALUE ==> r.clock is None,
        duration != NOPTS_VALUE ==> r.clock == Some(clock_of(r.duration as int)),
{
    if duration == NOPTS_VALUE {
        return DurationReport { duration: 0, js_duration: 0, clock: None };
    }
    let rounded: i64 = duration + if duration <= INT64_MAX - 5000 {
        5000
    } else {
        0
    };
    let mut secs: i64 = rounded / TIME_BASE;
    let mut mins: i64 = secs / 60;
    secs = secs % 60;
    let hours: i64 = mins / 60;
    mins = mins % 60;
    DurationReport {
        duration: rounded,
        js_duration: rounded as i32,
        clock: Some(Clock { hours, mins, secs }),
    }
}

/// Rust's remainder by a positive divisor is smaller than the divisor in
/// size, takes the sign of the dividend, and the quotient is no larger than
/// the dividend in size.
pub proof fn lemma_trunc_rem_bounds(a: int, b: int)
    requires
        b > 0,
    ensures
        -b < trunc_rem(a, b) < b,
        a >= 0 ==> 0 <= trunc_rem(a, b) && 0 <= trunc_div(a, b) <= a,
        a <= 0 ==> trunc_rem(a, b) <= 0 && a <= trunc_div(a, b) <= 0,
{
    if a >= 0 {
        let q = a / b;
        let r = a % b;
        assert(a == b * q + r && 0 <= r < b && 0 <= q <= a) by (nonlinear_arith)
            requires
                b > 0,
                a >= 0,
                q == a / b,
                r == a % b,
        ;
        assert(trunc_div(a, b) == q);
        assert(b * trunc_div(a, b) == b * q);
    } else {
        let q = (-a) / b;
        let r = (-a) % b;
        assert(-a == b * q + r && 0 <= r < b && 0 <= q <= -a) by (nonlinear_arith)
            requires
                b > 0,
                a < 0,
                q == (-a) / b,
                r == (-a) % b,
        ;
        assert(trunc_div(a, b) == -q);
        assert(b * trunc_div(a, b) == -(b * q)) by (nonlinear_arith)
            requires
                trunc_div(a, b) == -q,
        ;
    }
}

/// The clock of a duration puts its whole seconds back together:
/// hours * 3600 + minutes * 60 + seconds; minutes and seconds stay below 60
/// in size, and none is negative for a duration that is not.
pub proof fn lemma_clock_reassembles(duration: int)
    requires
        i64::MIN <= duration <= i64::MAX,
    ensures
        ({
            let c = clock_of(duration);
            &&& c.hours * 3600 + c.mins * 60 + c.secs == trunc_div(duration, TIME_BASE as int)
            &&& -60 < c.mins < 60
            &&& -60 < c.secs < 60
            &&& duration >= 0 ==> c.hours >= 0 && c.mins >= 0 && c.secs >= 0
        }),
{
    let ts = trunc_div(duration, TIME_BASE as int);
    let tm = trunc_div(ts, 60);
    lemma_trunc_rem_bounds(duration, TIME_BASE as int);
    lemma_trunc_rem_bounds(ts, 60);
    lemma_trunc_rem_bounds(tm, 60);
    assert(trunc_rem(ts, 60) == ts - 60 * tm);
    assert(trunc_rem(tm, 60) == tm - 60 * trunc_div(tm, 60));
}

} // verus!
