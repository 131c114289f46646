//! Correction of the compositor's frame timing hints.
//!
//! The compositor sends, with every invalidation, the timing it expects for the
//! upcoming frame. Those values come from another process and are advisory: a
//! base time may lie in the future, a deadline may precede its base time, and
//! the schedule may have fallen whole frame periods behind. The tracker repairs
//! each record and keeps the corrected base and presentation times monotonic.

use vstd::prelude::*;

verus! {

/// An instant on the monotonic clock, in ticks.
#[derive(Clone, Copy, Debug, PartialEq, Eq, Structural)]
pub struct TimePoint {
    pub ticks: i64,
}

/// Timing of one frame, in monotonic-clock ticks.
#[derive(Clone, Copy, Debug, PartialEq, Eq, Structural)]
pub struct FrameInfo {
    /// When the frame is meant to become visible.
    pub presentation_time: i64,
    /// Nominal period between frames; zero while no cadence is known.
    pub presentation_interval: u64,
    /// Latest instant at which the frame's content must be final.
    pub publish_deadline: i64,
    /// Instant the frame's schedule is based on.
    pub base_time: i64,
}

impl FrameInfo {
    /// The all-zero record: no timing known.
    pub fn unset() -> (r: FrameInfo)
        ensures
            r == (FrameInfo {
                presentation_time: 0,
                presentation_interval: 0,
                publish_deadline: 0,
                base_time: 0,
            }),
    {
        FrameInfo { presentation_time: 0, presentation_interval: 0, publish_deadline: 0, base_time: 0 }
    }

    /// Tick counts are never negative.
    pub open spec fn ticks_valid(self) -> bool {
        &&& self.presentation_time >= 0
        &&& self.publish_deadline >= 0
        &&& self.base_time >= 0
    }
}

/// The base time after the future-base clamp.
pub open spec fn clamped_base(input: FrameInfo, now: int) -> int {
    if input.base_time > now {
        now
    } else {
        input.base_time as int
    }
}

/// The deadline after it has been raised to the clamped base time.
pub open spec fn clamped_deadline(input: FrameInfo, now: int) -> int {
    if input.publish_deadline < clamped_base(input, now) {
        clamped_base(input, now)
    } else {
        input.publish_deadline as int
    }
}

/// How far the schedule trails the clock.
pub open spec fn lag(input: FrameInfo, now: int) -> int {
    now - clamped_base(input, now)
}

/// True when the schedule has fallen at least one whole period behind.
pub open spec fn lags_a_frame(input: FrameInfo, now: int) -> bool {
    input.presentation_interval > 0 && lag(input, now) >= input.presentation_interval
}

/// The shift that moves the schedule to the latest frame boundary not after
/// `now`: the whole periods of the lag, or zero when it is under one period.
pub open spec fn lag_adjustment(input: FrameInfo, now: int) -> int {
    if lags_a_frame(input, now) {
        lag(input, now) - lag(input, now) % (input.presentation_interval as int)
    } else {
        0
    }
}

/// The larger of two integers.
pub open spec fn max_int(a: int, b: int) -> int {
    if a >= b {
        a
    } else {
        b
    }
}

/// Base time before the monotonic floor is applied.
pub open spec fn base_before_floor(input: FrameInfo, now: int) -> int {
    clamped_base(input, now) + lag_adjustment(input, now)
}

/// Presentation time before the monotonic floor is applied.
pub open spec fn presentation_before_floor(input: FrameInfo, now: int) -> int {
    input.presentation_time + lag_adjustment(input, now)
}

/// The publish deadline of the corrected record.
pub open spec fn corrected_deadline(input: FrameInfo, now: int) -> int {
    clamped_deadline(input, now) + lag_adjustment(input, now)
}

/// What `update` accepts: tick counts that are not negative, and a lag
/// shift that keeps the deadline and presentation time within `i64`.
pub open spec fn update_admissible(input: FrameInfo, now: int) -> bool {
    &&& input.ticks_valid()
    &&& 0 <= now
    &&& corrected_deadline(input, now) <= i64::MAX
    &&& presentation_before_floor(input, now) <= i64::MAX
}

/// Whether `update` accepts `input` at `now`; the caller tests this before
/// handing the compositor's record over.
pub fn update_accepts(input: FrameInfo, now: TimePoint) -> (r: bool)
    ensures
        r == update_admissible(input, now.ticks as int),
{
    if input.presentation_time < 0 || input.publish_deadline < 0 || input.base_time < 0
        || now.ticks < 0 {
        return false;
    }
    let base = if input.base_time > now.ticks {
        now.ticks
    } else {
        input.base_time
    };
    let deadline = if input.publish_deadline < base {
        base
    } else {
        input.publish_deadline
    };
    let lag = now.ticks - base;
    let adjustment: i64 = if input.presentation_interval > 0 && lag as u64
        >= input.presentation_interval {
        let offset = ((lag as u64) % input.presentation_interval) as i64;
        lag - offset
    } else {
        0
    };
    assert(adjustment == lag_adjustment(input, now.ticks as int));
    deadline.checked_add(adjustment).is_some() && input.presentation_time.checked_add(
        adjustment,
    ).is_some()
}

/// The corrected record for `input` at `now`, after the record `last`.
pub open spec fn corrected_frame_info(last: FrameInfo, input: FrameInfo, now: int) -> FrameInfo {
    FrameInfo {
        presentation_time: max_int(
            presentation_before_floor(input, now),
            last.presentation_time as int,
        ) as i64,
        presentation_interval: input.presentation_interval,
        publish_deadline: corrected_deadline(input, now) as i64,
        base_time: max_int(base_before_floor(input, now), last.base_time as int) as i64,
    }
}

/// The frame counter after one more frame, wrapping at the top of `u64`.
pub open spec fn next_frame_count(count: u64) -> u64 {
    if count == u64::MAX {
        0
    } else {
        (count + 1) as u64
    }
}

/// A corrected record keeps valid ticks and never falls behind the record
/// before it.
pub proof fn lemma_corrected_step(last: FrameInfo, input: FrameInfo, now: int)
    requires
        last.ticks_valid(),
        update_admissible(input, now),
    ensures
        corrected_frame_info(last, input, now).ticks_valid(),
        corrected_frame_info(last, input, now).base_time as int == max_int(
            base_before_floor(input, now),
            last.base_time as int,
        ),
        corrected_frame_info(last, input, now).presentation_time as int == max_int(
            presentation_before_floor(input, now),
            last.presentation_time as int,
        ),
        corrected_frame_info(last, input, now).publish_deadline as int == corrected_deadline(
            input,
            now,
        ),
        corrected_frame_info(last, input, now).base_time >= last.base_time,
        corrected_frame_info(last, input, now).presentation_time >= last.presentation_time,
{
    let k = input.presentation_interval as int;
    let l = lag(input, now);
    if lags_a_frame(input, now) {
        assert(0 <= l % k <= l) by (nonlinear_arith)
            requires
                k > 0,
                l >= k,
        ;
    }
}

/// The corrected records of a run of updates, one per step, starting after
/// the record `start`. A step is the compositor's record and the clock reading.
pub open spec fn corrected_history(start: FrameInfo, steps: Seq<(FrameInfo, int)>) -> Seq<FrameInfo>
    decreases steps.len(),
{
    if steps.len() == 0 {
        seq![]
    } else {
        let before = corrected_history(start, steps.drop_last());
        let last = if before.len() == 0 {
            start
        } else {
            before.last()
        };
        before.push(corrected_frame_info(last, steps.last().0, steps.last().1))
    }
}

/// Monotonicity: over any run of updates, whatever records the compositor
/// sends (earlier ones included), the corrected base and presentation times
/// never decrease from one call to the next, nor fall below the start.
pub proof fn lemma_history_monotonic(start: FrameInfo, steps: Seq<(FrameInfo, int)>)
    requires
        start.ticks_valid(),
        forall|i: int| 0 <= i < steps.len() ==> update_admissible(#[trigger] steps[i].0, steps[i].1),
    ensures
        corrected_history(start, steps).len() == steps.len(),
        forall|i: int|
            0 <= i < steps.len() ==> {
                &&& (#[trigger] corrected_history(start, steps)[i]).ticks_valid()
                &&& corrected_history(start, steps)[i].base_time >= start.base_time
                &&& corrected_history(start, steps)[i].presentation_time >= start.presentation_time
            },
        forall|i: int, j: int|
            0 <= i <= j < steps.len() ==> {
                &&& (#[trigger] corrected_history(start, steps)[i]).base_time <= (
                #[trigger] corrected_history(start, steps)[j]).base_time
                &&& corrected_history(start, steps)[i].presentation_time <= corrected_history(
                    start,
                    steps,
                )[j].presentation_time
            },
    decreases steps.len(),
{
    if steps.len() > 0 {
        let prefix = steps.drop_last();
        assert forall|i: int| 0 <= i < prefix.len() implies update_admissible(
            #[trigger] prefix[i].0,
            prefix[i].1,
        ) by {
            assert(prefix[i] == steps[i]);
        }
        lemma_history_monotonic(start, prefix);
        let before = corrected_history(start, prefix);
        let last = if before.len() == 0 {
            start
        } else {
            before.last()
        };
        lemma_corrected_step(last, steps.last().0, steps.last().1);
        let h = corrected_history(start, steps);
        assert(h == before.push(corrected_frame_info(last, steps.last().0, steps.last().1)));
        assert forall|i: int| 0 <= i < h.len() - 1 implies #[trigger] h[i] == before[i] by {}
    }
}

/// Future-base clamp: a base time later than the clock reading is replaced by
/// the reading, or by the previous corrected base time where that is later.
pub proof fn lemma_future_base_clamped(last: FrameInfo, input: FrameInfo, now: int)
    requires
        last.ticks_valid(),
        update_admissible(input, now),
        input.base_time > now,
    ensures
        corrected_frame_info(last, input, now).base_time == max_int(now, last.base_time as int),
{
    lemma_corrected_step(last, input, now);
}

/// Deadline ordering: the corrected deadline is not before the corrected base
/// time whenever the monotonic floor leaves the base time as the clamps and
/// the lag shift made it. (Where the previous base time is later, the floor
/// raises the base time alone and the deadline may then precede it.)
pub proof fn lemma_deadline_not_before_base(last: FrameInfo, input: FrameInfo, now: int)
    requires
        last.ticks_valid(),
        update_admissible(input, now),
        last.base_time <= base_before_floor(input, now),
    ensures
        corrected_frame_info(last, input, now).publish_deadline >= corrected_frame_info(
            last,
            input,
            now,
        ).base_time,
{
    lemma_corrected_step(last, input, now);
}

/// What a tracker holds, as plain values.
pub struct FrameTrackerView {
    pub frame_count: u64,
    pub frame_info: FrameInfo,
    pub presentation_time_delta: int,
}

/// Corrects each frame's timing against the one before it.
pub struct FrameTracker {
    frame_count: u64,
    frame_info: FrameInfo,
    presentation_time_delta: i64,
}

impl View for FrameTracker {
    type V = FrameTrackerView;

    closed spec fn view(&self) -> FrameTrackerView {
        FrameTrackerView {
            frame_count: self.frame_count,
            frame_info: self.frame_info,
            presentation_time_delta: self.presentation_time_delta as int,
        }
    }
}

impl FrameTracker {
    /// What a tracker that has seen no frame holds.
    pub open spec fn new_view() -> FrameTrackerView {
        FrameTrackerView {
            frame_count: 0,
            frame_info: FrameInfo {
                presentation_time: 0,
                presentation_interval: 0,
                publish_deadline: 0,
                base_time: 0,
            },
            presentation_time_delta: 0,
        }
    }

    /// The tracker's invariant: the last corrected record holds valid ticks.
    pub open spec fn wf(&self) -> bool {
        self@.frame_info.ticks_valid()
    }

    /// A tracker that has seen no frame: every time is zero.
    pub fn new() -> (r: FrameTracker)
        ensures
            r.wf(),
            r@ == FrameTracker::new_view(),
    {
        FrameTracker { frame_count: 0, frame_info: FrameInfo::unset(), presentation_time_delta: 0 }
    }

    /// Number of frames seen, modulo 2^64.
    pub fn frame_count(&self) -> (r: u64)
        ensures
            r == self@.frame_count,
    {
        self.frame_count
    }

    /// The last corrected record.
    pub fn frame_info(&self) -> (r: FrameInfo)
        ensures
            r == self@.frame_info,
    {
        self.frame_info
    }

    /// How far the last update moved the corrected base time.
    pub fn presentation_time_delta(&self) -> (r: i64)
        ensures
            r == self@.presentation_time_delta,
    {
        self.presentation_time_delta
    }

    /// Corrects `frame_info`, the compositor's timing for the upcoming frame,
    /// against the clock reading `now` and the previous corrected record, stores
    /// the result and returns it.
    pub fn update(&mut self, frame_info: FrameInfo, now: TimePoint) -> (r: FrameInfo)
        requires
            old(self).wf(),
            update_admissible(frame_info, now.ticks as int),
        ensures
            final(self).wf(),
            r == corrected_frame_info(old(self)@.frame_info, frame_info, now.ticks as int),
            final(self)@.frame_info == r,
            final(self)@.frame_count == next_frame_count(old(self)@.frame_count),
            final(self)@.presentation_time_delta == r.base_time - old(self)@.frame_info.base_time,
            r.base_time >= old(self)@.frame_info.base_time,
            r.presentation_time >= old(self)@.frame_info.presentation_time,
    {
        let old_base_time = self.frame_info.base_time;
        let old_presentation_time = self.frame_info.presentation_time;
        let ghost last = self.frame_info;
        let ghost n = now.ticks as int;

        let mut info = frame_info;
        // The timing comes from another process: repair what cannot be true.
        if info.base_time > now.ticks {
            info.base_time = now.ticks;
        }
        if info.publish_deadline < info.base_time {
            info.publish_deadline = info.base_time;
        }
        assert(info.base_time == clamped_base(frame_info, n));
        assert(info.publish_deadline == clamped_deadline(frame_info, n));

        // Step past skipped frames when the schedule trails by a whole period.
        let lag = now.ticks - info.base_time;
        if info.presentation_interval > 0 && lag as u64 >= info.presentation_interval {
            let offset = ((lag as u64) % info.presentation_interval) as i64;
            let adjustment = now.ticks - offset - info.base_time;
            assert(adjustment == lag_adjustment(frame_info, n));
            info.base_time = now.ticks - offset;
            info.publish_deadline = info.publish_deadline + adjustment;
            info.presentation_time = info.presentation_time + adjustment;
        }
        assert(info.base_time == base_before_floor(frame_info, n));
        assert(info.publish_deadline == corrected_deadline(frame_info, n));
        assert(info.presentation_time == presentation_before_floor(frame_info, n));

        // Never let the corrected schedule run backwards.
        self.frame_count = self.frame_count.wrapping_add(1);
        if info.base_time < old_base_time {
            info.base_time = old_base_time;
        }
        if info.presentation_time < old_presentation_time {
            info.presentation_time = old_presentation_time;
        }
        self.frame_info = info;
        self.presentation_time_delta = info.base_time - old_base_time;
        info
    }
}

} // verus!
