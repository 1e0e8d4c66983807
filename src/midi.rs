//! MIDI control: decoding of control-change messages, the route table that
//! maps controller numbers onto controls, and the listener's polling
//! decisions with linear backoff.
use vstd::prelude::*;
use crate::control::{clamp, ControlState, Mode, CONTROL_MAX, DECAY_MAX};

verus! {

/// The largest 7-bit data value; on a switch route it means "on".
pub const VALUE_MAX: u8 = 127;

/// The ceiling of the listener's backoff counter.
pub const BACKOFF_CEILING: u32 = 10;

/// Milliseconds of sleep per step of backoff.
pub const BACKOFF_STEP_MS: u64 = 10;

/// A control-change message reduced to its controller number (the route
/// "channel") and its 7-bit value.
#[derive(Clone, Copy, Debug, PartialEq, Eq, Structural)]
pub struct MidiEvent {
    pub channel: u8,
    pub value: u8,
}

/// A message as read from the port: a status byte and two data bytes.
#[derive(Clone, Copy, Debug, PartialEq, Eq, Structural)]
pub struct RawMessage {
    pub status: u8,
    pub data1: u8,
    pub data2: u8,
}

/// The channel that drives each control, fixed for the life of the process.
#[derive(Clone, Copy, Debug, PartialEq, Eq, Structural)]
pub struct Routes {
    pub backwards: u8,
    pub alt_curve: u8,
    pub waves: u8,
    pub solid: u8,
    pub audio: u8,
    pub spiral: u8,
    pub intensity: u8,
    pub dilation: u8,
    pub decay: u8,
    pub reset: u8,
}

pub open spec fn is_control_change(status: u8) -> bool {
    0xB0 <= status <= 0xBF
}

pub open spec fn spec_decode(m: RawMessage) -> Option<MidiEvent> {
    if is_control_change(m.status) {
        Some(MidiEvent { channel: (m.data1 % 128) as u8, value: (m.data2 % 128) as u8 })
    } else {
        None
    }
}

/// Decodes a control-change message of any MIDI channel; other messages
/// carry no control and decode to `None`.
pub fn decode(m: RawMessage) -> (r: Option<MidiEvent>)
    ensures
        r == spec_decode(m),
{
    if 0xB0 <= m.status && m.status <= 0xBF {
        Some(MidiEvent { channel: m.data1 % 128, value: m.data2 % 128 })
    } else {
        None
    }
}

/// A 7-bit value mapped linearly onto `[0, hi]`, rounding down.
pub open spec fn spec_scale(value: int, hi: int) -> int {
    clamp(value, 0, VALUE_MAX as int) * hi / VALUE_MAX as int
}

fn scale(value: u8, hi: u32) -> (r: i64)
    requires
        hi <= DECAY_MAX,
    ensures
        r == spec_scale(value as int, hi as int),
        0 <= r <= hi,
{
    let v: u32 = if value > VALUE_MAX {
        VALUE_MAX as u32
    } else {
        value as u32
    };
    assert(0 <= v * hi / 127 <= hi) by (nonlinear_arith)
        requires
            v <= 127,
            hi <= 9_999,
    ;
    (v * hi / VALUE_MAX as u32) as i64
}

pub open spec fn switch_mode(r: Routes, e: MidiEvent, channel: u8, mode: Mode, s: ControlState) -> ControlState {
    if e.channel == channel && e.value == VALUE_MAX {
        ControlState { mode, ..s }
    } else {
        s
    }
}

/// What one event does to the record: every route whose channel matches
/// takes effect, in the order intensity, dilation, decay, reset, direction,
/// then the modes (Spiral, AltCurve, Waves, Solid, AudioReactive).
pub open spec fn spec_handle(r: Routes, e: MidiEvent, s0: ControlState) -> ControlState {
    let s1 = if e.channel == r.intensity {
        ControlState { intensity: spec_scale(e.value as int, CONTROL_MAX as int) as u32, ..s0 }
    } else {
        s0
    };
    let s2 = if e.channel == r.dilation {
        ControlState { dilation: spec_scale(e.value as int, CONTROL_MAX as int) as u32, ..s1 }
    } else {
        s1
    };
    let s3 = if e.channel == r.decay {
        ControlState { decay: spec_scale(e.value as int, DECAY_MAX as int) as u32, ..s2 }
    } else {
        s2
    };
    let s4 = if e.channel == r.reset {
        ControlState { reset: e.value == VALUE_MAX, ..s3 }
    } else {
        s3
    };
    let s5 = if e.channel == r.backwards {
        ControlState { backwards: e.value == VALUE_MAX, ..s4 }
    } else {
        s4
    };
    let s6 = switch_mode(r, e, r.spiral, Mode::Spiral, s5);
    let s7 = switch_mode(r, e, r.alt_curve, Mode::AltCurve, s6);
    let s8 = switch_mode(r, e, r.waves, Mode::Waves, s7);
    let s9 = switch_mode(r, e, r.solid, Mode::Solid, s8);
    switch_mode(r, e, r.audio, Mode::AudioReactive, s9)
}

/// Applies one decoded event to the control record.
///
/// Intensity, dilation and decay take the value scaled linearly onto their
/// ranges; the reset and direction routes are on at value 127 and off
/// otherwise; a mode route selects its mode at value 127.
pub fn handle_msg(routes: &Routes, e: MidiEvent, s: &mut ControlState)
    ensures
        *final(s) == spec_handle(*routes, e, *old(s)),
        old(s).wf() ==> final(s).wf(),
{
    if e.channel == routes.intensity {
        s.set_intensity(scale(e.value, CONTROL_MAX));
    }
    if e.channel == routes.dilation {
        s.set_dilation(scale(e.value, CONTROL_MAX));
    }
    if e.channel == routes.decay {
        s.set_decay(scale(e.value, DECAY_MAX));
    }
    if e.channel == routes.reset {
        s.set_reset(e.value == VALUE_MAX);
    }
    if e.channel == routes.backwards {
        s.set_backwards(e.value == VALUE_MAX);
    }
    if e.channel == routes.spiral && e.value == VALUE_MAX {
        s.set_mode(Mode::Spiral);
    }
    if e.channel == routes.alt_curve && e.value == VALUE_MAX {
        s.set_mode(Mode::AltCurve);
    }
    if e.channel == routes.waves && e.value == VALUE_MAX {
        s.set_mode(Mode::Waves);
    }
    if e.channel == routes.solid && e.value == VALUE_MAX {
        s.set_mode(Mode::Solid);
    }
    if e.channel == routes.audio && e.value == VALUE_MAX {
        s.set_mode(Mode::AudioReactive);
    }
}

/// What a non-blocking read of the port gave.
#[derive(Clone, Copy, Debug, PartialEq, Eq, Structural)]
pub enum Poll {
    Message(RawMessage),
    Empty,
    Failed,
}

/// What the listener's thread does next.
#[derive(Clone, Copy, Debug, PartialEq, Eq, Structural)]
pub enum ListenerAction {
    /// Lock the control record, apply the event, and poll again.
    Apply(MidiEvent),
    /// Poll again at once: the message carried no control.
    Skip,
    /// Sleep this many milliseconds, then poll again.
    Sleep(u64),
    /// The port failed: the thread ends.
    Stop,
}

/// The listener's state between polls.
#[derive(Clone, Copy, Debug, PartialEq, Eq, Structural)]
pub struct Listener {
    pub backoff: u32,
    pub stopped: bool,
}

/// The listener's next state and action after a poll.
pub open spec fn spec_listen(l: Listener, p: Poll) -> (Listener, ListenerAction) {
    if l.stopped {
        (l, ListenerAction::Stop)
    } else {
        match p {
            Poll::Message(m) => (
                Listener { backoff: 0, ..l },
                match spec_decode(m) {
                    Some(e) => ListenerAction::Apply(e),
                    None => ListenerAction::Skip,
                },
            ),
            Poll::Empty => {
                let b = if l.backoff < BACKOFF_CEILING {
                    l.backoff + 1
                } else {
                    BACKOFF_CEILING as int
                };
                (Listener { backoff: b as u32, ..l }, ListenerAction::Sleep((b * BACKOFF_STEP_MS) as u64))
            },
            Poll::Failed => (Listener { stopped: true, ..l }, ListenerAction::Stop),
        }
    }
}

impl Listener {
    pub open spec fn wf(self) -> bool {
        self.backoff <= BACKOFF_CEILING
    }

    /// A listener that has not backed off yet.
    pub fn new() -> (r: Listener)
        ensures
            r == (Listener { backoff: 0, stopped: false }),
            r.wf(),
    {
        Listener { backoff: 0, stopped: false }
    }

    /// Decides what follows a poll. A message resets the backoff; silence
    /// raises it by one up to the ceiling and sleeps that many steps; a
    /// failed read stops the listener for good.
    pub fn step(&mut self, p: Poll) -> (r: ListenerAction)
        requires
            old(self).wf(),
        ensures
            final(self).wf(),
            (*final(self), r) == spec_listen(*old(self), p),
    {
        if self.stopped {
            return ListenerAction::Stop;
        }
        match p {
            Poll::Message(m) => {
                self.backoff = 0;
                match decode(m) {
                    Some(e) => ListenerAction::Apply(e),
                    None => ListenerAction::Skip,
                }
            },
            Poll::Empty => {
                if self.backoff < BACKOFF_CEILING {
                    self.backoff = self.backoff + 1;
                }
                ListenerAction::Sleep(self.backoff as u64 * BACKOFF_STEP_MS)
            },
            Poll::Failed => {
                self.stopped = true;
                ListenerAction::Stop
            },
        }
    }
}

/// Whatever event arrives, a well-formed record stays well-formed: the
/// bounded controls never leave their ranges.
pub proof fn lemma_events_stay_bounded(r: Routes, e: MidiEvent, s: ControlState)
    requires
        s.wf(),
    ensures
        spec_handle(r, e, s).wf(),
{
    assert(0 <= spec_scale(e.value as int, CONTROL_MAX as int) <= CONTROL_MAX) by (nonlinear_arith)
        requires
            0 <= clamp(e.value as int, 0, 127) <= 127,
            spec_scale(e.value as int, CONTROL_MAX as int) == clamp(e.value as int, 0, 127) * 255 / 127,
    ;
    assert(0 <= spec_scale(e.value as int, DECAY_MAX as int) <= DECAY_MAX) by (nonlinear_arith)
        requires
            0 <= clamp(e.value as int, 0, 127) <= 127,
            spec_scale(e.value as int, DECAY_MAX as int) == clamp(e.value as int, 0, 127) * 9_999 / 127,
    ;
}

} // verus!
