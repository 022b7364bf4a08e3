use mod_interval::LinearSegment;
use mod_interval::ModInterval;
use mod_interval::PerX;
use mod_interval::Pull;

#[test]
fn it_works() {
    assert_eq!(2 + 2, 4);
}

#[test]
fn per_second_normalizes_to_per_minute() {
    assert_eq!(PerX::second(2).as_per_minute(), 120);
    assert_eq!(PerX::second(2), PerX::minute(120));
    assert_eq!(PerX::minute(0).as_per_minute(), 0);
}

#[test]
fn segment_rate_is_linear() {
    // 60 events/minute ramping up to 120 events/minute over 10 seconds.
    let seg = LinearSegment::new(PerX::second(1), 10000, PerX::minute(120));
    // rate_num(x) = duration * rate(x): 60 * 10000 at the start,
    // 120 * 10000 at the end, and the affine blend in between.
    assert_eq!(seg.rate_num_at(0), 600000);
    assert_eq!(seg.rate_num_at(10000), 1200000);
    assert_eq!(seg.rate_num_at(5000), 900000);
    assert_eq!(seg.rate_num_at(2500), 750000);
}

#[test]
fn constant_segment_has_exact_reciprocal_spacing() {
    // 60 events/minute, constant: one event every 1000 ms at every point.
    let seg = LinearSegment::new(PerX::minute(60), 10000, PerX::minute(60));
    assert_eq!(seg.wait_millis_at(0), Some(1000));
    assert_eq!(seg.wait_millis_at(1), Some(1000));
    assert_eq!(seg.wait_millis_at(4999), Some(1000));
    assert_eq!(seg.wait_millis_at(10000), Some(1000));
}

#[test]
fn zero_rate_segment_has_no_interval() {
    let seg = LinearSegment::new(PerX::minute(0), 10000, PerX::minute(0));
    assert_eq!(seg.wait_millis_at(0), None);
    assert_eq!(seg.wait_millis_at(5000), None);
}

#[test]
fn empty_plan_ends_on_first_pull() {
    let plan = ModInterval::new();
    let mut ticks = plan.into_stream();
    assert_eq!(ticks.pull(7), Pull::Done);
    // Exhaustion is terminal.
    assert_eq!(ticks.pull(9), Pull::Done);
    assert_eq!(ticks.pull(9), Pull::Done);
}

#[test]
fn constant_rate_plan_ticks_every_second() {
    // One segment: 60 events/minute for 10 seconds.  Driving the generator
    // with clock readings at each emitted instant yields ticks 1000 ms
    // apart.
    let mut plan = ModInterval::new();
    plan.append_segment(PerX::minute(60), 10000, PerX::minute(60));
    let mut ticks = plan.into_stream();
    let mut now = 0;
    for i in 1..=5u64 {
        match ticks.pull(now) {
            Pull::Emit { at, wait_ms } => {
                assert_eq!(wait_ms, 1000);
                assert_eq!(at, i * 1000);
                now = at;
            }
            other => panic!("expected an emission, got {:?}", other),
        }
    }
}

#[test]
fn boundary_crossing_carries_elapsed_offset() {
    // Two 5-second segments.  The second ramps from 120 down to 60
    // events/minute, so the rate it reports pins down the elapsed time at
    // which it was evaluated.
    let mut plan = ModInterval::new();
    plan.append_segment(PerX::minute(60), 5000, PerX::minute(60));
    plan.append_segment(PerX::minute(120), 5000, PerX::minute(60));
    let mut ticks = plan.into_stream();
    let mut now = 0;
    // Five ticks of the first segment, 1000 ms apart: 1000 .. 5000.  The
    // pull at 5000 sits exactly on the boundary and still belongs to the
    // first segment.
    for i in 1..=5u64 {
        match ticks.pull(now) {
            Pull::Emit { at, wait_ms } => {
                assert_eq!(wait_ms, 1000);
                assert_eq!(at, i * 1000);
                now = at;
            }
            other => panic!("expected an emission, got {:?}", other),
        }
    }
    // The pull at exactly 5000 sits on the boundary and still belongs to
    // the first segment.
    assert_eq!(ticks.pull(5000), Pull::Emit { at: 6000, wait_ms: 1000 });
    // The pull at 6000 crosses into the second segment with 1000 ms of its
    // own elapsed time: rate_num = 120 * 4000 + 60 * 1000 = 540000, so the
    // wait is 60000 * 5000 / 540000 = 555 ms.  Evaluating at the plan's
    // start (6000 ms elapsed, clamped to 5000) would give 1000 ms, and
    // resetting to zero would give 500 ms.
    assert_eq!(ticks.pull(6000), Pull::Emit { at: 6555, wait_ms: 555 });
}

#[test]
fn zero_rate_plan_stalls_then_recovers() {
    // A segment that starts at rate zero: the start point has no finite
    // interval, so the first pull stalls; a later pull inside the ramp
    // makes progress.
    let mut plan = ModInterval::new();
    plan.append_segment(PerX::minute(0), 60000, PerX::minute(60));
    let mut ticks = plan.into_stream();
    assert_eq!(ticks.pull(0), Pull::Stalled);
    // At 1000 ms the rate is 60 * 1000 / 60000 = 1 event/minute: the wait
    // is a full minute.
    assert_eq!(ticks.pull(1000), Pull::Emit { at: 61000, wait_ms: 60000 });
}

#[test]
fn zero_duration_segment_stalls_then_ends() {
    let mut plan = ModInterval::new();
    plan.append_segment(PerX::minute(60), 0, PerX::minute(60));
    let mut ticks = plan.into_stream();
    // A zero-length segment has no usable rate function.
    assert_eq!(ticks.pull(0), Pull::Stalled);
    // Once any time has passed, the segment is over and nothing follows.
    assert_eq!(ticks.pull(1), Pull::Done);
}

#[test]
fn oversized_wait_saturates() {
    // A ramp so shallow that one millisecond in, the computed interval
    // exceeds the representable range: both the wait and the emitted
    // instant saturate.
    let mut plan = ModInterval::new();
    plan.append_segment(PerX::minute(0), u64::MAX, PerX::minute(1));
    let mut ticks = plan.into_stream();
    assert_eq!(ticks.pull(0), Pull::Stalled);
    assert_eq!(
        ticks.pull(1),
        Pull::Emit {
            at: u64::MAX,
            wait_ms: u64::MAX
        }
    );
}

#[test]
fn emitted_timestamps_are_non_decreasing() {
    // A varied plan driven at each emitted instant: the timestamps never
    // decrease even as the rate rises and falls across segments.
    let mut plan = ModInterval::new();
    plan.append_segment(PerX::minute(60), 3000, PerX::minute(600));
    plan.append_segment(PerX::minute(600), 3000, PerX::minute(30));
    plan.append_segment(PerX::second(4), 2000, PerX::second(1));
    let mut ticks = plan.into_stream();
    let mut now = 0;
    let mut last_at = 0;
    let mut emitted = 0;
    loop {
        match ticks.pull(now) {
            Pull::Emit { at, wait_ms } => {
                assert!(at >= last_at);
                assert!(at >= now);
                assert_eq!(at, now.saturating_add(wait_ms));
                last_at = at;
                now = at;
                emitted += 1;
            }
            Pull::Stalled => panic!("no segment of this plan has a zero rate"),
            Pull::Done => break,
        }
    }
    assert!(emitted > 5);
}

#[test]
fn last_now_tracks_the_clock() {
    let mut plan = ModInterval::new();
    plan.append_segment(PerX::minute(60), 10000, PerX::minute(60));
    let mut ticks = plan.into_stream();
    assert_eq!(ticks.last_now_ms(), 0);
    ticks.pull(123);
    assert_eq!(ticks.last_now_ms(), 123);
}
