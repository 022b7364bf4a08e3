use vstd::prelude::*;

use crate::rate::PerX;

verus! {

/// Milliseconds in one minute: converts a per-minute rate into a
/// per-millisecond interval.
pub const MILLIS_PER_MINUTE: u64 = 60000;

/// Saturates a non-negative mathematical integer into a `u64`.
pub open spec fn clamp_u64(v: int) -> u64 {
    if v < 0 {
        0
    } else if v > u64::MAX {
        u64::MAX
    } else {
        v as u64
    }
}

/// One span of the rate curve: the target rate interpolates linearly from
/// `start_per_minute` at elapsed time 0 to `end_per_minute` at elapsed time
/// `duration_ms`.
///
/// The instantaneous rate after `x` milliseconds is the rational number
/// `rate_num(x) / duration_ms` events per minute, kept exact by carrying the
/// numerator and denominator separately.
#[derive(Clone, Copy, Debug, PartialEq, Eq, Structural)]
pub struct LinearSegment {
    /// Target rate at the segment's start, in events per minute.
    pub start_per_minute: u64,
    /// Target rate at the segment's end, in events per minute.
    pub end_per_minute: u64,
    /// Length of the segment, in milliseconds.
    pub duration_ms: u64,
}

impl LinearSegment {
    /// `duration_ms` times the instantaneous per-minute rate after `x`
    /// milliseconds: the numerator of the exact rational rate over the
    /// denominator `duration_ms`.
    pub open spec fn rate_num(self, x: int) -> int {
        self.start_per_minute * (self.duration_ms - x) + self.end_per_minute * x
    }

    /// The exact inter-event interval after `x` milliseconds, in whole
    /// milliseconds: the reciprocal of the instantaneous rate,
    /// `60000 / (rate_num(x) / duration_ms)`, rounded down.  Meaningful only
    /// where `rate_num(x) > 0`.
    pub open spec fn wait_ms_exact(self, x: int) -> int {
        MILLIS_PER_MINUTE * self.duration_ms / self.rate_num(x)
    }

    /// Builds the segment for a span of `duration_ms` milliseconds running
    /// from rate `start` to rate `end`.
    pub fn new(start: PerX, duration_ms: u64, end: PerX) -> (r: LinearSegment)
        ensures
            r == (LinearSegment {
                start_per_minute: start.per_minute(),
                end_per_minute: end.per_minute(),
                duration_ms,
            }),
    {
        LinearSegment {
            start_per_minute: start.as_per_minute(),
            end_per_minute: end.as_per_minute(),
            duration_ms,
        }
    }

    /// Evaluates the rate numerator after `x` milliseconds.
    pub fn rate_num_at(&self, x: u64) -> (r: u128)
        requires
            x <= self.duration_ms,
        ensures
            r == self.rate_num(x as int),
    {
        proof {
            lemma_rate_num_bound(*self, x as int);
        }
        (self.start_per_minute as u128) * ((self.duration_ms - x) as u128)
            + (self.end_per_minute as u128) * (x as u128)
    }

    /// The inter-event interval after `x` milliseconds, in milliseconds,
    /// saturated to the representable range; `None` exactly when the
    /// instantaneous rate is zero (including every zero-length segment), in
    /// which case no finite interval exists.
    pub fn wait_millis_at(&self, x: u64) -> (r: Option<u64>)
        requires
            x <= self.duration_ms,
        ensures
            self.rate_num(x as int) == 0 <==> r is None,
            self.rate_num(x as int) > 0 ==> r == Some(clamp_u64(self.wait_ms_exact(x as int))),
    {
        let num = self.rate_num_at(x);
        if num == 0 {
            None
        } else {
            proof {
                assert((MILLIS_PER_MINUTE as int) * (self.duration_ms as int) <= u128::MAX)
                    by (nonlinear_arith)
                    requires
                        self.duration_ms <= u64::MAX,
                ;
            }
            let total = (MILLIS_PER_MINUTE as u128) * (self.duration_ms as u128);
            let w = total / num;
            if w > u64::MAX as u128 {
                Some(u64::MAX)
            } else {
                Some(w as u64)
            }
        }
    }
}

/// The rate numerator and each of its two products are non-negative and at
/// most `u64::MAX * u64::MAX` everywhere inside the segment's span, so the
/// evaluation fits a `u128`.
pub proof fn lemma_rate_num_bound(seg: LinearSegment, x: int)
    requires
        0 <= x <= seg.duration_ms,
    ensures
        0 <= seg.start_per_minute * (seg.duration_ms - x) <= u64::MAX * u64::MAX,
        0 <= seg.end_per_minute * x <= u64::MAX * u64::MAX,
        0 <= seg.rate_num(x) <= u64::MAX * u64::MAX,
{
    assert(0 <= seg.start_per_minute * (seg.duration_ms - x)
        && seg.start_per_minute * (seg.duration_ms - x) + seg.end_per_minute * x <= u64::MAX
        * u64::MAX && 0 <= seg.end_per_minute * x) by (nonlinear_arith)
        requires
            0 <= x <= seg.duration_ms,
            seg.start_per_minute <= u64::MAX,
            seg.end_per_minute <= u64::MAX,
            seg.duration_ms <= u64::MAX,
    ;
}

/// Linearity of the rate curve: scaled by the denominator `duration_ms`, the
/// rate after `x` milliseconds is the affine function
/// `start * duration + (end - start) * x`, so the rate is `start` at the
/// segment's start, `end` at its end, and interpolates linearly in between.
pub proof fn lemma_rate_linear(seg: LinearSegment, x: int)
    requires
        0 <= x <= seg.duration_ms,
    ensures
        seg.rate_num(0) == seg.start_per_minute * seg.duration_ms,
        seg.rate_num(seg.duration_ms as int) == seg.end_per_minute * seg.duration_ms,
        seg.rate_num(x) == seg.start_per_minute * seg.duration_ms + (
        seg.end_per_minute - seg.start_per_minute) * x,
{
    assert(seg.start_per_minute * (seg.duration_ms - x) + seg.end_per_minute * x
        == seg.start_per_minute * seg.duration_ms + (seg.end_per_minute - seg.start_per_minute)
        * x) by (nonlinear_arith);
    assert(seg.start_per_minute * (seg.duration_ms - 0) + seg.end_per_minute * 0
        == seg.start_per_minute * seg.duration_ms) by (nonlinear_arith);
    assert(seg.start_per_minute * (seg.duration_ms - seg.duration_ms) + seg.end_per_minute
        * seg.duration_ms == seg.end_per_minute * seg.duration_ms) by (nonlinear_arith);
}

/// A constant-rate segment (start rate = end rate = R > 0) has the same
/// exact spacing of `60000 / R` milliseconds at every point of its span: the
/// reciprocal of R events per minute.
pub proof fn lemma_constant_rate_wait(seg: LinearSegment, x: int)
    requires
        seg.start_per_minute == seg.end_per_minute,
        seg.start_per_minute > 0,
        seg.duration_ms > 0,
        0 <= x <= seg.duration_ms,
    ensures
        seg.rate_num(x) == seg.start_per_minute * seg.duration_ms,
        seg.wait_ms_exact(x) == MILLIS_PER_MINUTE / seg.start_per_minute,
{
    assert(seg.start_per_minute * (seg.duration_ms - x) + seg.end_per_minute * x
        == seg.start_per_minute * seg.duration_ms) by (nonlinear_arith)
        requires
            0 <= x <= seg.duration_ms,
            seg.start_per_minute == seg.end_per_minute,
    ;
    vstd::arithmetic::div_mod::lemma_div_multiples_vanish_quotient(
        seg.duration_ms as int,
        MILLIS_PER_MINUTE as int,
        seg.start_per_minute as int,
    );
    assert(seg.duration_ms * seg.start_per_minute == seg.start_per_minute * seg.duration_ms)
        by (nonlinear_arith);
    assert(seg.duration_ms * (MILLIS_PER_MINUTE as int) == MILLIS_PER_MINUTE * seg.duration_ms);
}

} // verus!
