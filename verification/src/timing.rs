//! How long each frame stays on screen.

use vstd::prelude::*;
use vstd::arithmetic::div_mod::{lemma_fundamental_div_mod, lemma_fundamental_div_mod_converse};

verus! {

/// Nanoseconds in a millisecond.
pub const NANOS_PER_MILLI: u64 = 1_000_000;

/// How long the last frame is left on screen before the overlay goes away, in
/// milliseconds.
pub const TRAILING_HOLD_MILLIS: u64 = 100;

/// A span of time: whole milliseconds and the nanoseconds beyond them.
#[derive(Clone, Copy, Debug, PartialEq, Eq, Structural)]
pub struct Interval {
    pub millis: u64,
    pub nanos: u32,
}

impl Interval {
    /// The span in nanoseconds.
    pub open spec fn total_nanos(self) -> int {
        self.millis * NANOS_PER_MILLI + self.nanos
    }

    /// The nanosecond part is less than a millisecond.
    pub open spec fn wf(self) -> bool {
        self.nanos < NANOS_PER_MILLI
    }

    /// A span of whole milliseconds.
    pub fn from_millis(millis: u64) -> (t: Interval)
        ensures
            t == (Interval { millis, nanos: 0 }),
            t.wf(),
            t.total_nanos() == millis * NANOS_PER_MILLI,
    {
        Interval { millis, nanos: 0 }
    }
}

/// Time given to each of `frame_count` frames of an animation that lasts
/// `duration` milliseconds: the quotient, cut off at the nanosecond.
pub open spec fn interval_nanos(duration: u64, frame_count: u16) -> int {
    duration * NANOS_PER_MILLI / (frame_count as int)
}

/// The span of `interval_nanos`, in milliseconds and nanoseconds.
pub open spec fn interval_spec(duration: u64, frame_count: u16) -> Interval {
    Interval {
        millis: (interval_nanos(duration, frame_count) / (NANOS_PER_MILLI as int)) as u64,
        nanos: (interval_nanos(duration, frame_count) % (NANOS_PER_MILLI as int)) as u32,
    }
}

/// Splitting the duration into whole milliseconds per frame and a remainder
/// gives the same quotient as dividing the nanoseconds at once.
pub proof fn lemma_interval_parts(duration: u64, frame_count: u16)
    requires
        frame_count > 0,
    ensures
        interval_nanos(duration, frame_count) == (duration / (frame_count as u64))
            * NANOS_PER_MILLI + (duration % (frame_count as u64)) * NANOS_PER_MILLI / (
        frame_count as int),
        0 <= (duration % (frame_count as u64)) * NANOS_PER_MILLI / (frame_count as int)
            < NANOS_PER_MILLI,
        interval_spec(duration, frame_count).millis == duration / (frame_count as u64),
        interval_spec(duration, frame_count).nanos == (duration % (frame_count as u64))
            * NANOS_PER_MILLI / (frame_count as int),
{
    let d = duration as int;
    let n = frame_count as int;
    let k = NANOS_PER_MILLI as int;
    let q = d / n;
    let r = d % n;
    let x = r * k;
    let sub = x / n;
    lemma_fundamental_div_mod(d, n);
    lemma_fundamental_div_mod(x, n);
    assert(0 <= sub < k) by (nonlinear_arith)
        requires
            x == n * sub + x % n,
            0 <= x % n < n,
            x == r * k,
            0 <= r < n,
            0 < k,
    ;
    assert(d * k == n * (q * k + sub) + x % n) by (nonlinear_arith)
        requires
            d == n * q + r,
            x == r * k,
            x == n * sub + x % n,
    ;
    lemma_fundamental_div_mod_converse(d * k, n, q * k + sub, x % n);
    assert(0 <= q) by (nonlinear_arith)
        requires
            q == d / n,
            0 <= d,
            0 < n,
    ;
    lemma_fundamental_div_mod_converse(q * k + sub, k, q, sub);
}

/// Computes the time each frame is shown.
pub fn frame_interval(duration: u64, frame_count: u16) -> (t: Interval)
    requires
        frame_count > 0,
    ensures
        t == interval_spec(duration, frame_count),
        t.wf(),
        t.total_nanos() == interval_nanos(duration, frame_count),
{
    proof {
        lemma_interval_parts(duration, frame_count);
    }
    let n: u64 = frame_count as u64;
    let millis: u64 = duration / n;
    let rest: u64 = duration % n;
    assert(rest * NANOS_PER_MILLI <= 0xFFFF * 1_000_000) by (nonlinear_arith)
        requires
            0 <= rest <= 0xFFFF,
            NANOS_PER_MILLI == 1_000_000,
    ;
    let nanos: u64 = rest * NANOS_PER_MILLI / n;
    Interval { millis, nanos: nanos as u32 }
}

/// The frames of an animation never take longer than its duration, and fall
/// short of it by less than one nanosecond per frame.
pub proof fn lemma_playback_fits_duration(duration: u64, frame_count: u16)
    requires
        frame_count > 0,
    ensures
        frame_count * interval_nanos(duration, frame_count) <= duration * NANOS_PER_MILLI,
        duration * NANOS_PER_MILLI - frame_count * interval_nanos(duration, frame_count)
            < frame_count,
        duration % (frame_count as u64) == 0 ==> frame_count * interval_nanos(
            duration,
            frame_count,
        ) == duration * NANOS_PER_MILLI,
{
    let total = duration * NANOS_PER_MILLI;
    let n = frame_count as int;
    lemma_fundamental_div_mod(total, n);
    lemma_interval_parts(duration, frame_count);
    if duration % (frame_count as u64) == 0 {
        let q = (duration / (frame_count as u64)) as int;
        lemma_fundamental_div_mod(duration as int, n);
        assert(n * (q * NANOS_PER_MILLI) == (n * q) * NANOS_PER_MILLI) by (nonlinear_arith);
    }
}

} // verus!
