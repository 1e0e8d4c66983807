//! The shared control record: active mode, bounded controls and flags.
//!
//! Every mutation of a bounded field clamps into its legal range, so a
//! well-formed record stays well-formed whatever is written to it.
use vstd::prelude::*;

verus! {

/// The largest value of the intensity and dilation controls.
pub const CONTROL_MAX: u32 = 255;

/// A decay factor is counted in ten-thousandths: a held value is multiplied
/// by `decay / DECAY_ONE` each frame. Factors stay strictly below one.
pub const DECAY_ONE: u32 = 10_000;

/// The largest decay factor, and the one a fresh record starts with.
pub const DECAY_MAX: u32 = 9_999;

/// The time divisor of the slow visual families.
pub const SLOW_DIVISOR: i64 = 1_000_000_000;

/// The time divisor of the fast visual families.
pub const FAST_DIVISOR: i64 = 1_000;

/// The visual function that is active; exactly one at any instant.
#[derive(Clone, Copy, Debug, PartialEq, Eq, Structural)]
pub enum Mode {
    Spiral,
    AltCurve,
    Waves,
    Solid,
    AudioReactive,
}

impl Mode {
    pub open spec fn spec_time_divisor(self) -> int {
        match self {
            Mode::Waves | Mode::Solid => FAST_DIVISOR as int,
            _ => SLOW_DIVISOR as int,
        }
    }

    /// The divisor that separates the slow visual families from the fast ones.
    pub fn time_divisor(self) -> (r: i64)
        ensures
            r == self.spec_time_divisor(),
            r > 0,
    {
        match self {
            Mode::Waves | Mode::Solid => FAST_DIVISOR,
            _ => SLOW_DIVISOR,
        }
    }
}

/// A key of the keyboard, as far as the engine tells keys apart.
#[derive(Clone, Copy, Debug, PartialEq, Eq, Structural)]
pub enum Key {
    R,
    S,
    W,
    O,
    V,
    A,
    Up,
    Down,
    Right,
    Left,
    Other,
}

/// The single mutable record that the listener, the key handlers and the
/// render loop share.
#[derive(Clone, Copy, Debug, PartialEq, Eq, Structural)]
pub struct ControlState {
    pub mode: Mode,
    pub intensity: u32,
    pub dilation: u32,
    pub decay: u32,
    pub backwards: bool,
    pub reset: bool,
}

pub open spec fn clamp(v: int, lo: int, hi: int) -> int {
    if v < lo {
        lo
    } else if v > hi {
        hi
    } else {
        v
    }
}

fn clamp_to(v: i64, hi: u32) -> (r: u32)
    ensures
        r == clamp(v as int, 0, hi as int),
{
    if v < 0 {
        0
    } else if v > hi as i64 {
        hi
    } else {
        v as u32
    }
}

/// What a key press does to a record.
pub open spec fn spec_key_pressed(s: ControlState, key: Key) -> ControlState {
    match key {
        Key::R => ControlState { reset: true, ..s },
        Key::S => ControlState { mode: Mode::Spiral, ..s },
        Key::W => ControlState { mode: Mode::Waves, ..s },
        Key::O => ControlState { mode: Mode::Solid, ..s },
        Key::V => ControlState { mode: Mode::AltCurve, ..s },
        Key::A => ControlState { mode: Mode::AudioReactive, ..s },
        Key::Up => if s.intensity < CONTROL_MAX {
            ControlState { intensity: (s.intensity + 1) as u32, ..s }
        } else {
            s
        },
        Key::Down => if s.intensity > 0 {
            ControlState { intensity: (s.intensity - 1) as u32, ..s }
        } else {
            s
        },
        Key::Right => if s.dilation < CONTROL_MAX {
            ControlState { dilation: (s.dilation + 1) as u32, ..s }
        } else {
            s
        },
        Key::Left => if s.dilation > 0 {
            ControlState { dilation: (s.dilation - 1) as u32, ..s }
        } else {
            s
        },
        Key::Other => s,
    }
}

/// What a key release does to a record.
pub open spec fn spec_key_released(s: ControlState, key: Key) -> ControlState {
    match key {
        Key::R => ControlState { reset: false, ..s },
        _ => s,
    }
}

impl ControlState {
    /// Intensity and dilation lie in `[0, CONTROL_MAX]`, the decay factor
    /// below one.
    pub open spec fn wf(self) -> bool {
        &&& self.intensity <= CONTROL_MAX
        &&& self.dilation <= CONTROL_MAX
        &&& self.decay <= DECAY_MAX
    }

    /// The record at startup: Spiral, controls at zero, running forward.
    pub fn new() -> (r: ControlState)
        ensures
            r.wf(),
            r == (ControlState {
                mode: Mode::Spiral,
                intensity: 0,
                dilation: 0,
                decay: DECAY_MAX,
                backwards: false,
                reset: false,
            }),
    {
        ControlState {
            mode: Mode::Spiral,
            intensity: 0,
            dilation: 0,
            decay: DECAY_MAX,
            backwards: false,
            reset: false,
        }
    }

    /// Sets the intensity, clamped into `[0, CONTROL_MAX]`.
    pub fn set_intensity(&mut self, v: i64)
        ensures
            *final(self) == (ControlState {
                intensity: clamp(v as int, 0, CONTROL_MAX as int) as u32,
                ..*old(self)
            }),
    {
        self.intensity = clamp_to(v, CONTROL_MAX);
    }

    /// Sets the time dilation, clamped into `[0, CONTROL_MAX]`.
    pub fn set_dilation(&mut self, v: i64)
        ensures
            *final(self) == (ControlState {
                dilation: clamp(v as int, 0, CONTROL_MAX as int) as u32,
                ..*old(self)
            }),
    {
        self.dilation = clamp_to(v, CONTROL_MAX);
    }

    /// Sets the decay factor in ten-thousandths, clamped into `[0, DECAY_MAX]`.
    pub fn set_decay(&mut self, v: i64)
        ensures
            *final(self) == (ControlState {
                decay: clamp(v as int, 0, DECAY_MAX as int) as u32,
                ..*old(self)
            }),
    {
        self.decay = clamp_to(v, DECAY_MAX);
    }

    /// Makes `mode` the active visual function.
    pub fn set_mode(&mut self, mode: Mode)
        ensures
            *final(self) == (ControlState { mode, ..*old(self) }),
    {
        self.mode = mode;
    }

    /// Asserts or clears the reset request.
    pub fn set_reset(&mut self, reset: bool)
        ensures
            *final(self) == (ControlState { reset, ..*old(self) }),
    {
        self.reset = reset;
    }

    /// Sets the direction in which time runs.
    pub fn set_backwards(&mut self, backwards: bool)
        ensures
            *final(self) == (ControlState { backwards, ..*old(self) }),
    {
        self.backwards = backwards;
    }
}

/// Intensity and dilation stay within `[0, CONTROL_MAX]` under every
/// mutation: key presses and releases, and writes of any value, which are
/// clamped to the nearest bound rather than dropped.
pub proof fn lemma_controls_stay_bounded(s: ControlState, key: Key, v: int)
    requires
        s.wf(),
    ensures
        spec_key_pressed(s, key).wf(),
        spec_key_released(s, key).wf(),
        (ControlState { intensity: clamp(v, 0, CONTROL_MAX as int) as u32, ..s }).wf(),
        (ControlState { dilation: clamp(v, 0, CONTROL_MAX as int) as u32, ..s }).wf(),
        (ControlState { decay: clamp(v, 0, DECAY_MAX as int) as u32, ..s }).wf(),
        0 <= v <= CONTROL_MAX ==> clamp(v, 0, CONTROL_MAX as int) == v,
        v < 0 ==> clamp(v, 0, CONTROL_MAX as int) == 0,
        v > CONTROL_MAX ==> clamp(v, 0, CONTROL_MAX as int) == CONTROL_MAX,
{
}

/// Applies a key press: `R` asserts reset, `S W O V A` select a mode, the
/// arrow keys step intensity (up, down) and dilation (right, left) by one
/// within their bounds.
pub fn key_pressed(s: &mut ControlState, key: Key)
    ensures
        *final(s) == spec_key_pressed(*old(s), key),
{
    match key {
        Key::R => s.reset = true,
        Key::S => s.mode = Mode::Spiral,
        Key::W => s.mode = Mode::Waves,
        Key::O => s.mode = Mode::Solid,
        Key::V => s.mode = Mode::AltCurve,
        Key::A => s.mode = Mode::AudioReactive,
        Key::Up => {
            if s.intensity < CONTROL_MAX {
                s.intensity = s.intensity + 1;
            }
        },
        Key::Down => {
            if s.intensity > 0 {
                s.intensity = s.intensity - 1;
            }
        },
        Key::Right => {
            if s.dilation < CONTROL_MAX {
                s.dilation = s.dilation + 1;
            }
        },
        Key::Left => {
            if s.dilation > 0 {
                s.dilation = s.dilation - 1;
            }
        },
        Key::Other => {},
    }
}

/// Applies a key release: releasing `R` clears the reset request.
pub fn key_released(s: &mut ControlState, key: Key)
    ensures
        *final(s) == spec_key_released(*old(s), key),
{
    match key {
        Key::R => s.reset = false,
        _ => {},
    }
}

} // verus!
