//! The time engine: a bounded accumulator that bounces between
//! `-THRESHOLD` and `THRESHOLD`, and the per-frame time it yields.
use vstd::prelude::*;
use crate::control::ControlState;
use crate::fixed::{int_div, spec_int_div};

verus! {

/// The magnitude at which the accumulator bounces, in microseconds.
pub const THRESHOLD: i64 = 1_000_000_000_000_000;

/// The divisor offset contributed by each step of the dilation control.
pub const DILATION_SCALE: i64 = 100_000;

/// Intensity is added to the frame time in hundredths.
pub const INTENSITY_UNIT: i64 = 10_000;

/// The engine's time base in microseconds.
#[derive(Clone, Copy, Debug, PartialEq, Eq, Structural)]
pub struct TimeAccumulator {
    pub value: i64,
}

/// One frame of the accumulator: the new value and the new direction
/// (`true` for backwards), from the old value, the old direction, the reset
/// request and the elapsed time.
pub open spec fn spec_step(value: int, backwards: bool, reset: bool, elapsed: int) -> (int, bool) {
    if reset {
        (0, backwards)
    } else if !backwards {
        if value + elapsed >= THRESHOLD {
            (THRESHOLD as int, true)
        } else {
            (value + elapsed, false)
        }
    } else {
        if value - elapsed <= -THRESHOLD {
            (-THRESHOLD as int, false)
        } else {
            (value - elapsed, true)
        }
    }
}

/// The accumulator and direction after a run of frames, each with the given
/// elapsed time and reset request.
pub open spec fn spec_run(value: int, backwards: bool, frames: Seq<(int, bool)>) -> (int, bool)
    decreases frames.len(),
{
    if frames.len() == 0 {
        (value, backwards)
    } else {
        let (v, b) = spec_step(value, backwards, frames[0].1, frames[0].0);
        spec_run(v, b, frames.drop_first())
    }
}

pub open spec fn in_bounds(value: int) -> bool {
    -THRESHOLD <= value <= THRESHOLD
}

/// The normalized frame time, in millionths: the accumulator (in seconds)
/// divided by the mode's divisor plus the dilation offset, plus a
/// hundredth of the intensity.
pub open spec fn spec_frame_time(value: int, s: ControlState) -> int {
    spec_int_div(value, s.mode.spec_time_divisor() + DILATION_SCALE * s.dilation)
        + INTENSITY_UNIT * s.intensity
}

impl TimeAccumulator {
    pub open spec fn wf(self) -> bool {
        in_bounds(self.value as int)
    }

    /// The accumulator at startup: zero.
    pub fn new() -> (r: TimeAccumulator)
        ensures
            r.value == 0,
            r.wf(),
    {
        TimeAccumulator { value: 0 }
    }

    /// Advances the accumulator by one frame of `elapsed` microseconds.
    ///
    /// Time is added while running forward and subtracted while running
    /// backwards. Reaching the threshold in the direction of travel stops
    /// at the threshold and reverses the direction. A pending reset holds
    /// the accumulator at zero and leaves the direction alone.
    pub fn advance(&mut self, ctrl: &mut ControlState, elapsed: u64)
        requires
            old(self).wf(),
        ensures
            final(self).wf(),
            (final(self).value as int, final(ctrl).backwards) == spec_step(
                old(self).value as int,
                old(ctrl).backwards,
                old(ctrl).reset,
                elapsed as int,
            ),
            *final(ctrl) == (ControlState { backwards: final(ctrl).backwards, ..*old(ctrl) }),
    {
        if ctrl.reset {
            self.value = 0;
        } else if !ctrl.backwards {
            let room = (THRESHOLD - self.value) as u64;
            if elapsed >= room {
                self.value = THRESHOLD;
                ctrl.backwards = true;
            } else {
                self.value = self.value + elapsed as i64;
            }
        } else {
            let room = (self.value + THRESHOLD) as u64;
            if elapsed >= room {
                self.value = -THRESHOLD;
                ctrl.backwards = false;
            } else {
                self.value = self.value - elapsed as i64;
            }
        }
    }

    /// The normalized time of this frame, in millionths.
    pub fn frame_time(&self, ctrl: &ControlState) -> (r: i64)
        requires
            self.wf(),
            ctrl.wf(),
        ensures
            r == spec_frame_time(self.value as int, *ctrl),
    {
        let divisor = ctrl.mode.time_divisor() + DILATION_SCALE * ctrl.dilation as i64;
        let q = int_div(self.value, divisor);
        assert(-THRESHOLD <= q <= THRESHOLD) by {
            lemma_quotient_bounded(self.value as int, divisor as int);
        }
        q + INTENSITY_UNIT * ctrl.intensity as i64
    }
}

proof fn lemma_quotient_bounded(a: int, d: int)
    requires
        in_bounds(a),
        d >= 1,
    ensures
        -THRESHOLD <= spec_int_div(a, d) <= THRESHOLD,
{
    let m = if a < 0 { -a } else { a };
    assert(m / d <= m) by (nonlinear_arith)
        requires
            m >= 0,
            d >= 1,
    ;
}

/// Whatever elapsed times and reset requests the frames bring, the
/// accumulator stays within `[-THRESHOLD, THRESHOLD]`.
pub proof fn lemma_accumulator_bounded(value: int, backwards: bool, frames: Seq<(int, bool)>)
    requires
        in_bounds(value),
        forall|i: int| 0 <= i < frames.len() ==> frames[i].0 >= 0,
    ensures
        in_bounds(spec_run(value, backwards, frames).0),
    decreases frames.len(),
{
    if frames.len() > 0 {
        let (v, b) = spec_step(value, backwards, frames[0].1, frames[0].0);
        let rest = frames.drop_first();
        assert forall|i: int| 0 <= i < rest.len() implies rest[i].0 >= 0 by {
            assert(rest[i] == frames[i + 1]);
        }
        lemma_accumulator_bounded(v, b, rest);
    }
}

/// The direction flips exactly when a frame without reset reaches the
/// threshold in its direction of travel, and the frame after such a bounce
/// (shorter than the whole range) does not flip it back.
pub proof fn lemma_bounce_once(value: int, backwards: bool, elapsed: int, next: int)
    requires
        in_bounds(value),
        elapsed >= 0,
        0 <= next < 2 * THRESHOLD,
    ensures
        ({
            let (v, b) = spec_step(value, backwards, false, elapsed);
            &&& (b != backwards <==> (if backwards {
                value - elapsed <= -THRESHOLD
            } else {
                value + elapsed >= THRESHOLD
            }))
            &&& (b != backwards ==> spec_step(v, b, false, next).1 == b)
        }),
{
}

/// A pending reset puts the accumulator at zero whatever its value and
/// direction; once the reset is cleared, a forward frame of `elapsed`
/// microseconds (below the threshold) starts again from zero.
pub proof fn lemma_reset_then_resume(value: int, backwards: bool, held: int, elapsed: int)
    requires
        in_bounds(value),
        held >= 0,
        0 <= elapsed < THRESHOLD,
    ensures
        spec_step(value, backwards, true, held).0 == 0,
        spec_step(value, backwards, true, held).1 == backwards,
        spec_step(0, false, false, elapsed) == (elapsed, false),
{
}

} // verus!
