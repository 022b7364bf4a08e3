use vstd::prelude::*;

use crate::segment::clamp_u64;
use crate::segment::LinearSegment;

verus! {

/// The outcome of one pull of a [`TickStream`].
#[derive(Clone, Copy, Debug, PartialEq, Eq, Structural)]
pub enum Pull {
    /// The next tick: suspend for `wait_ms` milliseconds, then emit the
    /// planned instant `at` (the clock reading that drove the pull plus
    /// `wait_ms`).
    Emit { at: u64, wait_ms: u64 },
    /// The instantaneous target rate is zero, so no finite inter-event
    /// interval exists; the generator keeps its position and a later pull
    /// may make progress.
    Stalled,
    /// Every segment has run its course: the generator is exhausted and
    /// every further pull reports `Done` again.
    Done,
}

/// The segment currently being played, together with where it stands on the
/// wall clock.
#[derive(Clone, Copy, Debug)]
pub struct ActiveSegment {
    /// The segment whose rate function is currently in effect.
    pub segment: LinearSegment,
    /// The clock reading at which the first segment of the current run
    /// became active, in milliseconds.
    pub start_time_ms: u64,
    /// The summed durations of the segments already finished since
    /// `start_time_ms`: subtracted from the elapsed wall-clock time to give
    /// the elapsed time within the active segment.
    pub x_offset_ms: u64,
}

/// The mathematical state of a [`TickStream`]: the remaining segment queue,
/// the active segment with its clock position, whether the generator is
/// exhausted, and the last clock reading it has seen.
#[verifier::ext_equal]
pub ghost struct StreamModel {
    pub queue: Seq<LinearSegment>,
    pub active: Option<ActiveModel>,
    pub done: bool,
    pub last_now: int,
}

/// The model of an [`ActiveSegment`], over unbounded integers.
pub ghost struct ActiveModel {
    pub segment: LinearSegment,
    pub start_time: int,
    pub x_offset: int,
}

impl StreamModel {
    /// Well-formedness: an exhausted generator holds nothing further, and
    /// the active segment never starts later than the last clock reading,
    /// so elapsed time within it is non-negative.
    pub open spec fn wf(self) -> bool {
        &&& 0 <= self.last_now <= u64::MAX
        &&& (self.done ==> self.active is None && self.queue.len() == 0)
        &&& match self.active {
            Some(a) => 0 <= a.start_time && 0 <= a.x_offset && a.start_time + a.x_offset
                <= self.last_now,
            None => true,
        }
    }
}

/// One pull of the generator at clock reading `now`: the new state paired
/// with the reported outcome.
///
/// An exhausted generator stays exhausted.  Otherwise, if no segment is
/// active, the head of the queue becomes active starting at `now` (an empty
/// queue exhausts the generator).  If the elapsed time within the active
/// segment has passed its duration, the playhead moves to the next segment,
/// carrying the finished segment's duration into the offset (again, an
/// empty queue exhausts the generator).  Finally the active segment's rate
/// is evaluated at the elapsed time and its reciprocal becomes the wait.
pub open spec fn step(m: StreamModel, now: int) -> (StreamModel, Pull) {
    if m.done {
        (m, Pull::Done)
    } else {
        match m.active {
            None => {
                if m.queue.len() == 0 {
                    (
                        StreamModel { queue: m.queue, active: None, done: true, last_now: now },
                        Pull::Done,
                    )
                } else {
                    let a = ActiveModel { segment: m.queue[0], start_time: now, x_offset: 0 };
                    step_active(m.queue.drop_first(), a, now)
                }
            },
            Some(a) => step_active(m.queue, a, now),
        }
    }
}

/// The pull once a segment is active: `q` is the queue behind it.  Computes
/// the elapsed time `x` within the active segment and moves to the next
/// segment if `x` has passed the active one's duration.
pub open spec fn step_active(q: Seq<LinearSegment>, a: ActiveModel, now: int) -> (
    StreamModel,
    Pull,
) {
    let x = now - a.start_time - a.x_offset;
    if x > a.segment.duration_ms {
        if q.len() == 0 {
            (StreamModel { queue: q, active: None, done: true, last_now: now }, Pull::Done)
        } else {
            let a2 = ActiveModel {
                segment: q[0],
                start_time: a.start_time,
                x_offset: a.x_offset + a.segment.duration_ms,
            };
            step_emit(q.drop_first(), a2, now, x - a.segment.duration_ms)
        }
    } else {
        step_emit(q, a, now, x)
    }
}

/// The emission at elapsed time `x` within the active segment `a`: the rate
/// is evaluated at `x` clamped to the segment's span (a pull that arrives
/// after the span's end sees the segment's end rate), and the emitted
/// instant is `now` plus the reciprocal interval, both saturated to `u64`.
/// A zero rate has no reciprocal: the pull reports `Stalled`.
pub open spec fn step_emit(q: Seq<LinearSegment>, a: ActiveModel, now: int, x: int) -> (
    StreamModel,
    Pull,
) {
    let m2 = StreamModel { queue: q, active: Some(a), done: false, last_now: now };
    let xe = if x <= a.segment.duration_ms {
        x
    } else {
        a.segment.duration_ms as int
    };
    if a.segment.rate_num(xe) == 0 {
        (m2, Pull::Stalled)
    } else {
        let wait = clamp_u64(a.segment.wait_ms_exact(xe));
        (m2, Pull::Emit { at: clamp_u64(now + wait), wait_ms: wait })
    }
}

/// A pull-based tick generator: walks a queue of rate segments and, for
/// each pull at a clock reading, reports how long to suspend and the
/// instant to emit, until every segment has run its course.
///
/// The caller drives it with readings of a monotonic millisecond clock; the
/// generator itself never reads a clock and never suspends, so the whole of
/// its timing logic is a pure state machine described by [`step`].
///
/// A wait computed near the end of the final segment is not clipped against
/// the plan's total configured duration: the generator stops only once the
/// last segment's span, measured by elapsed-offset arithmetic, has been
/// exceeded, so the last emission may overshoot the configured total.
pub struct TickStream {
    segments: Vec<LinearSegment>,
    active: Option<ActiveSegment>,
    done: bool,
    last_now_ms: u64,
}

impl View for TickStream {
    type V = StreamModel;

    closed spec fn view(&self) -> StreamModel {
        StreamModel {
            queue: self.segments@,
            active: match self.active {
                Some(a) => Some(
                    ActiveModel {
                        segment: a.segment,
                        start_time: a.start_time_ms as int,
                        x_offset: a.x_offset_ms as int,
                    },
                ),
                None => None,
            },
            done: self.done,
            last_now: self.last_now_ms as int,
        }
    }
}

impl TickStream {
    /// Well-formedness of the generator's state; established at construction
    /// and preserved by every pull.
    pub open spec fn wf(self) -> bool {
        self@.wf()
    }

    /// A fresh generator over `segments`, before its first pull.
    pub fn from_segments(segments: Vec<LinearSegment>) -> (s: TickStream)
        ensures
            s@.queue == segments@,
            s@.active is None,
            !s@.done,
            s@.last_now == 0,
            s.wf(),
    {
        TickStream { segments, active: None, done: false, last_now_ms: 0 }
    }

    /// The last clock reading this generator has seen, in milliseconds;
    /// clock readings handed to `pull` must never run backwards past it.
    pub fn last_now_ms(&self) -> (r: u64)
        ensures
            r == self@.last_now,
    {
        self.last_now_ms
    }

    /// One pull at clock reading `now_ms`: the generator takes the
    /// transition described by [`step`] and reports its outcome.
    pub fn pull(&mut self, now_ms: u64) -> (p: Pull)
        requires
            old(self).wf(),
            now_ms >= old(self)@.last_now,
        ensures
            final(self).wf(),
            final(self)@ == step(old(self)@, now_ms as int).0,
            p == step(old(self)@, now_ms as int).1,
    {
        if self.done {
            return Pull::Done;
        }
        if self.active.is_none() {
            if self.segments.len() == 0 {
                self.done = true;
                self.last_now_ms = now_ms;
                return Pull::Done;
            }
            let seg = self.segments.remove(0);
            proof {
                assert(self.segments@ =~= old(self)@.queue.drop_first());
            }
            self.active = Some(ActiveSegment { segment: seg, start_time_ms: now_ms, x_offset_ms: 0 });
        }
        let mut a = self.active.unwrap();
        let mut x = now_ms - a.start_time_ms - a.x_offset_ms;
        if x > a.segment.duration_ms {
            if self.segments.len() == 0 {
                self.active = None;
                self.done = true;
                self.last_now_ms = now_ms;
                return Pull::Done;
            }
            let ghost q_before: Seq<LinearSegment> = self.segments@;
            let seg = self.segments.remove(0);
            proof {
                assert(self.segments@ =~= q_before.drop_first());
            }
            x = x - a.segment.duration_ms;
            a.x_offset_ms = a.x_offset_ms + a.segment.duration_ms;
            a.segment = seg;
        }
        let xe = if x <= a.segment.duration_ms {
            x
        } else {
            a.segment.duration_ms
        };
        self.active = Some(a);
        self.last_now_ms = now_ms;
        match a.segment.wait_millis_at(xe) {
            None => Pull::Stalled,
            Some(wait) => {
                let at = if now_ms <= u64::MAX - wait {
                    now_ms + wait
                } else {
                    u64::MAX
                };
                Pull::Emit { at, wait_ms: wait }
            },
        }
    }
}

} // verus!
