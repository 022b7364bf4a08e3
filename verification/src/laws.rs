use vstd::prelude::*;

use crate::segment::clamp_u64;
use crate::segment::LinearSegment;
use crate::stream::step;
use crate::stream::step_active;
use crate::stream::ActiveModel;
use crate::stream::Pull;
use crate::stream::StreamModel;

verus! {

/// An exhausted generator is terminal: once a pull has reported `Done`,
/// every further pull leaves the state unchanged and reports `Done` again.
pub proof fn lemma_done_stays_done(m: StreamModel, now: int)
    requires
        m.done,
    ensures
        step(m, now).0 == m,
        step(m, now).1 == Pull::Done,
{
}

/// An empty plan's generator produces no item at all: the very first pull
/// reports the end of the sequence, and the generator is exhausted from
/// then on.
pub proof fn lemma_empty_plan_done(m: StreamModel, now: int)
    requires
        m.queue.len() == 0,
        m.active is None,
    ensures
        step(m, now).1 == Pull::Done,
        step(m, now).0.done,
        step(m, now).0.queue.len() == 0,
        step(m, now).0.active is None,
{
}

/// An emission never precedes the clock reading that drove it: a pull at
/// `now` that emits, emits the planned instant `now + wait` (saturated to
/// the representable range), which is at least `now`.
pub proof fn lemma_emit_after_now(m: StreamModel, now: int)
    requires
        0 <= now <= u64::MAX,
    ensures
        (match step(m, now).1 {
            Pull::Emit { at, wait_ms } => at == clamp_u64(now + wait_ms) && now <= at,
            _ => true,
        }),
{
}

/// The generator's state after driving it with the clock readings `nows`,
/// one pull per reading, in order.
pub open spec fn run_state(m: StreamModel, nows: Seq<int>) -> StreamModel
    decreases nows.len(),
{
    if nows.len() == 0 {
        m
    } else {
        run_state(step(m, nows.first()).0, nows.drop_first())
    }
}

/// The outcome of the `i`-th pull of a run driven by the clock readings
/// `nows`.
pub open spec fn run_pull(m: StreamModel, nows: Seq<int>, i: int) -> Pull {
    step(run_state(m, nows.take(i)), nows[i]).1
}

/// A well-behaved driver: its clock readings are representable and never
/// run backwards, and after a pull that emits it suspends the prescribed
/// wait, so the next reading is not before the emitted instant.
pub open spec fn disciplined(m: StreamModel, nows: Seq<int>) -> bool {
    &&& forall|i: int| 0 <= i < nows.len() ==> 0 <= #[trigger] nows[i] <= u64::MAX
    &&& forall|i: int, j: int|
        #![trigger nows[i], nows[j]]
        0 <= i < j < nows.len() ==> nows[i] <= nows[j]
    &&& forall|i: int|
        0 <= i < nows.len() - 1 ==> (match #[trigger] run_pull(m, nows, i) {
            Pull::Emit { at, wait_ms } => at <= nows[i + 1],
            _ => true,
        })
}

/// For every configuration, the emitted timestamps of a disciplined run
/// are non-decreasing: any earlier emission is not after any later one.
pub proof fn lemma_run_emissions_monotone(
    m: StreamModel,
    nows: Seq<int>,
    i: int,
    j: int,
    at_i: u64,
    w_i: u64,
    at_j: u64,
    w_j: u64,
)
    requires
        disciplined(m, nows),
        0 <= i < j < nows.len(),
        run_pull(m, nows, i) == (Pull::Emit { at: at_i, wait_ms: w_i }),
        run_pull(m, nows, j) == (Pull::Emit { at: at_j, wait_ms: w_j }),
    ensures
        at_i <= at_j,
{
    // The later emission is not before the reading that drove it.
    lemma_emit_after_now(run_state(m, nows.take(j)), nows[j]);
    // The driver suspended after the earlier emission, so the next reading
    // is not before it; the readings then never run backwards up to `j`.
    assert(at_i <= nows[i + 1]);
    if i + 1 < j {
        assert(nows[i + 1] <= nows[j]);
    }
}

/// Continuity across a segment boundary: when a pull's elapsed time `x`
/// within the active segment has passed that segment's duration, the next
/// segment of the queue becomes active, the finished segment's duration
/// moves into the carried offset (so it is counted exactly once), and the
/// new segment's rate function is evaluated at `x` minus that duration —
/// the elapsed time measured from the new segment's own start.
pub proof fn lemma_boundary_crossing(q: Seq<LinearSegment>, a: ActiveModel, now: int)
    requires
        now - a.start_time - a.x_offset > a.segment.duration_ms,
        q.len() > 0,
    ensures
        step_active(q, a, now).0.active == Some(
            ActiveModel {
                segment: q[0],
                start_time: a.start_time,
                x_offset: a.x_offset + a.segment.duration_ms,
            },
        ),
        step_active(q, a, now).0.queue == q.drop_first(),
        ({
            let x2 = now - a.start_time - a.x_offset - a.segment.duration_ms;
            x2 <= q[0].duration_ms && q[0].rate_num(x2) > 0 ==> step_active(q, a, now).1 == (
            Pull::Emit {
                at: clamp_u64(now + clamp_u64(q[0].wait_ms_exact(x2))),
                wait_ms: clamp_u64(q[0].wait_ms_exact(x2)),
            })
        }),
{
}

} // verus!
