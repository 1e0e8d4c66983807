//! The per-frame work of the render loop: smoothing the envelope, advancing
//! time, and the hue of each cell.
use vstd::prelude::*;
use crate::control::ControlState;
use crate::envelope::{spec_smooth, EnvelopeBuffer};
use crate::spectrum::{AnalysisError, Spectrum};
use crate::time::{spec_frame_time, spec_step, TimeAccumulator};
use crate::visual::{evaluate, spec_evaluate};

verus! {

/// The state that the render loop owns: the time base, the envelope and
/// the latest spectrum that could be analyzed.
#[derive(Debug)]
pub struct Engine {
    pub time: TimeAccumulator,
    pub envelope: EnvelopeBuffer,
    pub spectrum: Spectrum,
}

/// What one frame hands the visual functions.
#[derive(Clone, Copy, Debug, PartialEq, Eq, Structural)]
pub struct FrameParams {
    /// The normalized frame time, in millionths.
    pub t: i64,
    /// The active mode's time divisor.
    pub time_divisor: i64,
}

impl Engine {
    pub open spec fn wf(&self) -> bool {
        &&& self.time.wf()
        &&& self.envelope.wf()
        &&& self.spectrum.wf()
    }

    /// An engine at time zero with a silent envelope, showing `silent`
    /// until a frame has been analyzed.
    pub fn new(silent: Spectrum) -> (r: Engine)
        requires
            silent.wf(),
        ensures
            r.wf(),
            r.time.value == 0,
            forall|i: int| 0 <= i < r.envelope@.len() ==> r.envelope@[i] == 0,
            r.spectrum == silent,
    {
        Engine { time: TimeAccumulator::new(), envelope: EnvelopeBuffer::new(), spectrum: silent }
    }

    /// Begins a frame `elapsed` microseconds after the previous one.
    ///
    /// A spectrum that could be analyzed replaces the previous one and is
    /// smoothed into the envelope with the record's decay factor; after an
    /// analysis error the previous spectrum stays and the envelope is left
    /// alone. Time then advances by one frame, and the frame's time and
    /// divisor come back.
    pub fn begin_frame(
        &mut self,
        ctrl: &mut ControlState,
        elapsed: u64,
        analyzed: Result<Spectrum, AnalysisError>,
    ) -> (r: FrameParams)
        requires
            old(self).wf(),
            old(ctrl).wf(),
            analyzed is Ok ==> analyzed->Ok_0.wf(),
        ensures
            final(self).wf(),
            final(ctrl).wf(),
            match analyzed {
                Ok(s) => final(self).spectrum == s && final(self).envelope@.map_values(
                    |v: u64| v as int,
                ) == spec_smooth(old(self).envelope@, s.spec_bins(), old(ctrl).decay as int),
                Err(_) => final(self).spectrum == old(self).spectrum && final(self).envelope@
                    == old(self).envelope@,
            },
            (final(self).time.value as int, final(ctrl).backwards) == spec_step(
                old(self).time.value as int,
                old(ctrl).backwards,
                old(ctrl).reset,
                elapsed as int,
            ),
            *final(ctrl) == (ControlState { backwards: final(ctrl).backwards, ..*old(ctrl) }),
            r.time_divisor == old(ctrl).mode.spec_time_divisor(),
            r.t == spec_frame_time(final(self).time.value as int, *final(ctrl)),
    {
        match analyzed {
            Ok(s) => {
                self.envelope.smooth(&s, ctrl.decay);
                self.spectrum = s;
            },
            Err(_) => {},
        }
        self.time.advance(ctrl, elapsed);
        FrameParams { t: self.time.frame_time(ctrl), time_divisor: ctrl.mode.time_divisor() }
    }

    /// The hue of the cell at `(y, x)` in this frame, in millionths.
    pub fn hue(&self, ctrl: &ControlState, frame: FrameParams, y: i64, x: i64) -> (r: i64)
        ensures
            r == spec_evaluate(ctrl.mode, y as int, x as int, frame.t as int, self.spectrum.spec_bins()),
    {
        evaluate(ctrl.mode, y, x, frame.t, &self.spectrum, frame.time_divisor)
    }
}

} // verus!
