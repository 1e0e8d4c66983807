//! The visual functions and their dispatch by mode.
//!
//! Each visual function maps a cell's coordinates, the frame time, the
//! spectrum and the time divisor to a hue, all in millionths. Evaluation
//! never fails: division by zero gives zero and overflow saturates.
use vstd::prelude::*;
use crate::control::Mode;
use crate::fixed::{
    fx_add, fx_div, fx_mul, fx_rem, fx_sub, spec_add, spec_div, spec_mul, spec_rem, spec_sub,
    SCALE,
};
use crate::spectrum::{Bin, Spectrum};

verus! {

/// The reference frequency from which the audio-reactive function looks
/// for a loud bin, in millihertz.
pub const REFERENCE_FREQ: u64 = 500_000;

/// Magnitudes are divided by this before use.
pub const MAG_DIVISOR: u64 = 1_000_000;

/// A scaled magnitude must exceed this to count (0.0001).
pub const NOISE_FLOOR: u64 = 100;

/// Below this the modulation factor is rescaled to `1 + m / 2` (10.0).
pub const NOISE_CLAMP: i64 = 10_000_000;

/// A bin's magnitude divided by `MAG_DIVISOR`, in millionths.
pub open spec fn scaled(b: Bin) -> int {
    b.mag as int / MAG_DIVISOR as int
}

pub open spec fn qualifies(b: Bin) -> bool {
    b.freq >= REFERENCE_FREQ && scaled(b) > NOISE_FLOOR
}

/// The scaled magnitude of the first qualifying bin, or zero if none.
pub open spec fn first_loud(bins: Seq<Bin>) -> int
    decreases bins.len(),
{
    if bins.len() == 0 {
        0
    } else if qualifies(bins[0]) {
        scaled(bins[0])
    } else {
        first_loud(bins.drop_first())
    }
}

/// The audio-reactive modulation factor: the first loud bin's scaled
/// magnitude, rescaled to `1 + m / 2` where it is below `NOISE_CLAMP`.
/// With no loud bin it is the neutral factor one.
pub open spec fn spec_modulation(bins: Seq<Bin>) -> int {
    let m = first_loud(bins);
    if m < NOISE_CLAMP {
        SCALE + m / 2
    } else {
        m
    }
}

/// The scaled magnitude of the first bin at or above the reference
/// frequency whose scaled magnitude exceeds the noise floor; zero if none.
pub fn first_loud_magnitude(bins: &Vec<Bin>) -> (r: i64)
    ensures
        r == first_loud(bins@),
        r >= 0,
{
    let mut i: usize = 0;
    assert(bins@.subrange(0, bins@.len() as int) == bins@);
    while i < bins.len()
        invariant
            i <= bins@.len(),
            first_loud(bins@) == first_loud(bins@.subrange(i as int, bins@.len() as int)),
        decreases bins.len() - i,
    {
        let b = bins[i];
        assert(bins@.subrange(i as int, bins@.len() as int).drop_first() == bins@.subrange(
            i + 1,
            bins@.len() as int,
        ));
        if b.freq >= REFERENCE_FREQ && b.mag / MAG_DIVISOR > NOISE_FLOOR {
            return (b.mag / MAG_DIVISOR) as i64;
        }
        i = i + 1;
    }
    0
}

/// The modulation factor of the audio-reactive function, in millionths.
pub fn modulation_factor(bins: &Vec<Bin>) -> (r: i64)
    ensures
        r == spec_modulation(bins@),
{
    let m = first_loud_magnitude(bins);
    if m < NOISE_CLAMP {
        SCALE + m / 2
    } else {
        m
    }
}

pub open spec fn spec_spiral(y: int, x: int, t: int) -> int {
    spec_mul(spec_mul(y, x), t)
}

pub open spec fn spec_alt_curve(y: int, x: int, t: int) -> int {
    spec_add(
        spec_add(
            spec_div(32 * SCALE, spec_div(t, x)),
            spec_div(y, spec_sub(spec_div(x, y), spec_div(SCALE as int, t))),
        ),
        spec_mul(t, spec_mul(y, 50_000)),
    )
}

pub open spec fn spec_waves(y: int, x: int, t: int) -> int {
    spec_mul(spec_div(x, y), t)
}

pub open spec fn spec_solid(y: int, x: int, t: int) -> int {
    spec_mul(
        spec_div(
            spec_add(spec_rem(x, 2 * SCALE), 1000 * SCALE),
            spec_add(spec_rem(y, 2 * SCALE), 1000 * SCALE),
        ),
        t,
    )
}

pub open spec fn spec_audio(y: int, x: int, t: int, m: int) -> int {
    spec_div(spec_mul(spec_mul(spec_sub(y, m), spec_mul(x, m)), t), 100 * SCALE)
}

/// The hue of a cell under the given mode.
pub open spec fn spec_evaluate(mode: Mode, y: int, x: int, t: int, bins: Seq<Bin>) -> int {
    match mode {
        Mode::Spiral => spec_spiral(y, x, t),
        Mode::AltCurve => spec_alt_curve(y, x, t),
        Mode::Waves => spec_waves(y, x, t),
        Mode::Solid => spec_solid(y, x, t),
        Mode::AudioReactive => spec_audio(y, x, t, spec_modulation(bins)),
    }
}

/// `y * x * t`.
pub fn spiral(y: i64, x: i64, t: i64) -> (r: i64)
    ensures
        r == spec_spiral(y as int, x as int, t as int),
{
    fx_mul(fx_mul(y, x), t)
}

/// `32 / (t / x) + y / (x / y - 1 / t) + t * (y * 0.05)`.
pub fn alt_curve(y: i64, x: i64, t: i64) -> (r: i64)
    ensures
        r == spec_alt_curve(y as int, x as int, t as int),
{
    fx_add(
        fx_add(fx_div(32 * SCALE, fx_div(t, x)), fx_div(y, fx_sub(fx_div(x, y), fx_div(SCALE, t)))),
        fx_mul(t, fx_mul(y, 50_000)),
    )
}

/// `x / y * t`.
pub fn waves(y: i64, x: i64, t: i64) -> (r: i64)
    ensures
        r == spec_waves(y as int, x as int, t as int),
{
    fx_mul(fx_div(x, y), t)
}

/// `(x % 2 + 1000) / (y % 2 + 1000) * t`.
pub fn solid(y: i64, x: i64, t: i64) -> (r: i64)
    ensures
        r == spec_solid(y as int, x as int, t as int),
{
    fx_mul(
        fx_div(fx_add(fx_rem(x, 2 * SCALE), 1000 * SCALE), fx_add(fx_rem(y, 2 * SCALE), 1000 * SCALE)),
        t,
    )
}

/// `(y - m) * (x * m) * t / 100`, with `m` the spectrum's modulation factor.
pub fn audio_reactive(y: i64, x: i64, t: i64, bins: &Vec<Bin>) -> (r: i64)
    ensures
        r == spec_audio(y as int, x as int, t as int, spec_modulation(bins@)),
{
    let m = modulation_factor(bins);
    fx_div(fx_mul(fx_mul(fx_sub(y, m), fx_mul(x, m)), t), 100 * SCALE)
}

/// Evaluates the visual function of `mode` at cell `(y, x)` and frame time
/// `t`. The time divisor is handed over with the other inputs; none of the
/// current functions reads it.
pub fn evaluate(mode: Mode, y: i64, x: i64, t: i64, spectrum: &Spectrum, _time_divisor: i64) -> (r:
    i64)
    ensures
        r == spec_evaluate(mode, y as int, x as int, t as int, spectrum.spec_bins()),
{
    match mode {
        Mode::Spiral => spiral(y, x, t),
        Mode::AltCurve => alt_curve(y, x, t),
        Mode::Waves => waves(y, x, t),
        Mode::Solid => solid(y, x, t),
        Mode::AudioReactive => audio_reactive(y, x, t, spectrum.bins()),
    }
}

} // verus!
