use vstd::prelude::*;

use crate::rate::PerX;
use crate::segment::LinearSegment;
use crate::stream::TickStream;

verus! {

/// The sum of the durations of a sequence of segments, in milliseconds.
pub open spec fn sum_durations(s: Seq<LinearSegment>) -> int
    decreases s.len(),
{
    if s.len() == 0 {
        0
    } else {
        sum_durations(s.drop_last()) + s.last().duration_ms
    }
}

/// An ordered, append-only plan of rate segments: append order is playback
/// order.  The plan also carries the running sum of its segments' durations,
/// and is consumed exactly once when converted into a [`TickStream`].
pub struct ModInterval {
    segments: Vec<LinearSegment>,
    duration_ms: u64,
}

impl ModInterval {
    /// The segments appended so far, in playback order.
    pub closed spec fn segments(self) -> Seq<LinearSegment> {
        self.segments@
    }

    /// The total configured duration: the running sum of the segments'
    /// durations, in milliseconds.
    pub closed spec fn total_duration_ms(self) -> u64 {
        self.duration_ms
    }

    /// The plan's invariant: the stored total equals the sum of the
    /// constituent segments' durations.
    pub open spec fn wf(self) -> bool {
        self.total_duration_ms() == sum_durations(self.segments())
    }

    /// An empty plan with zero total duration.
    pub fn new() -> (r: ModInterval)
        ensures
            r.segments() == Seq::<LinearSegment>::empty(),
            r.total_duration_ms() == 0,
            r.wf(),
    {
        let r = ModInterval { segments: Vec::new(), duration_ms: 0 };
        proof {
            assert(r.segments() =~= Seq::<LinearSegment>::empty());
        }
        r
    }

    /// Appends one segment running from rate `start` to rate `end` over
    /// `duration_ms` milliseconds, and adds its duration to the running
    /// total.  No validation is performed on the rates or the duration:
    /// degenerate values surface at generation time as the generator's
    /// stalled outcome.
    pub fn append_segment(&mut self, start: PerX, duration_ms: u64, end: PerX)
        requires
            old(self).total_duration_ms() + duration_ms <= u64::MAX,
        ensures
            final(self).segments() == old(self).segments().push(
                LinearSegment {
                    start_per_minute: start.per_minute(),
                    end_per_minute: end.per_minute(),
                    duration_ms,
                },
            ),
            final(self).total_duration_ms() == old(self).total_duration_ms() + duration_ms,
            old(self).wf() ==> final(self).wf(),
    {
        let segment = LinearSegment::new(start, duration_ms, end);
        self.duration_ms = self.duration_ms + duration_ms;
        self.segments.push(segment);
        proof {
            assert(self.segments() =~= old(self).segments().push(segment));
            assert(self.segments().drop_last() =~= old(self).segments());
        }
    }

    /// Consumes the plan and turns it into a tick generator that will walk
    /// the segments in order.  Consuming an empty plan is legal: its
    /// generator reports the end of the sequence on the very first pull.
    pub fn into_stream(self) -> (s: TickStream)
        ensures
            s@.queue == self.segments(),
            s@.active is None,
            !s@.done,
            s@.last_now == 0,
            s.wf(),
    {
        TickStream::from_segments(self.segments)
    }
}

} // verus!
