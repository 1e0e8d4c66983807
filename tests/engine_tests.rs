use hue_engine::control::{key_pressed, key_released, ControlState, Key, Mode, DECAY_MAX};
use hue_engine::engine::Engine;
use hue_engine::envelope::{EnvelopeBuffer, ENVELOPE_BINS};
use hue_engine::fixed::{fx_add, fx_div, fx_mul, fx_rem, fx_sub, int_div, SCALE};
use hue_engine::midi::{decode, handle_msg, Listener, ListenerAction, MidiEvent, Poll, RawMessage, Routes};
use hue_engine::spectrum::{is_ordered, AnalysisError, Bin, FrequencyWindow, Spectrum};
use hue_engine::time::{TimeAccumulator, THRESHOLD};
use hue_engine::visual::{
    alt_curve, audio_reactive, evaluate, first_loud_magnitude, modulation_factor, solid, spiral,
    waves,
};

const WINDOW: FrequencyWindow = FrequencyWindow { low: 50_000, high: 12_000_000 };

fn hz(f: u64) -> u64 {
    f * 1000
}

fn spectrum_of(bins: Vec<Bin>) -> Spectrum {
    Spectrum::from_bins(1024, WINDOW, bins).unwrap()
}

fn routes() -> Routes {
    Routes {
        backwards: 1,
        alt_curve: 2,
        waves: 3,
        solid: 4,
        audio: 5,
        spiral: 6,
        intensity: 7,
        dilation: 8,
        decay: 9,
        reset: 10,
    }
}

#[test]
fn fixed_point_operations() {
    assert_eq!(fx_mul(2 * SCALE, 3 * SCALE), 6 * SCALE);
    assert_eq!(fx_mul(-SCALE / 2, 3 * SCALE), -3 * SCALE / 2);
    assert_eq!(fx_div(SCALE, 4 * SCALE), SCALE / 4);
    assert_eq!(fx_div(-7 * SCALE, 2 * SCALE), -7 * SCALE / 2);
    assert_eq!(fx_div(5 * SCALE, 0), 0);
    assert_eq!(fx_rem(-3 * SCALE, 2 * SCALE), -SCALE);
    assert_eq!(fx_rem(5, 0), 0);
    assert_eq!(fx_add(i64::MAX, 1), i64::MAX);
    assert_eq!(fx_sub(i64::MIN, 1), i64::MIN);
    assert_eq!(fx_mul(i64::MAX, i64::MAX), i64::MAX);
    assert_eq!(int_div(-7, 2), -3);
}

#[test]
fn control_defaults_and_clamping() {
    let mut s = ControlState::new();
    assert_eq!(s.mode, Mode::Spiral);
    assert_eq!((s.intensity, s.dilation, s.decay), (0, 0, DECAY_MAX));
    assert!(!s.backwards && !s.reset);
    s.set_intensity(300);
    assert_eq!(s.intensity, 255);
    s.set_intensity(-5);
    assert_eq!(s.intensity, 0);
    s.set_dilation(1000);
    assert_eq!(s.dilation, 255);
    s.set_dilation(42);
    assert_eq!(s.dilation, 42);
    s.set_decay(20_000);
    assert_eq!(s.decay, DECAY_MAX);
}

#[test]
fn keys_step_controls_within_bounds() {
    let mut s = ControlState::new();
    key_pressed(&mut s, Key::Down);
    assert_eq!(s.intensity, 0);
    key_pressed(&mut s, Key::Up);
    assert_eq!(s.intensity, 1);
    s.set_intensity(255);
    key_pressed(&mut s, Key::Up);
    assert_eq!(s.intensity, 255);
    key_pressed(&mut s, Key::Right);
    key_pressed(&mut s, Key::Right);
    key_pressed(&mut s, Key::Left);
    assert_eq!(s.dilation, 1);
    key_pressed(&mut s, Key::W);
    assert_eq!(s.mode, Mode::Waves);
    key_pressed(&mut s, Key::A);
    assert_eq!(s.mode, Mode::AudioReactive);
    key_pressed(&mut s, Key::R);
    assert!(s.reset);
    key_released(&mut s, Key::S);
    assert!(s.reset);
    key_released(&mut s, Key::R);
    assert!(!s.reset);
}

#[test]
fn time_divisors_by_mode() {
    assert_eq!(Mode::Waves.time_divisor(), 1_000);
    assert_eq!(Mode::Solid.time_divisor(), 1_000);
    assert_eq!(Mode::Spiral.time_divisor(), 1_000_000_000);
    assert_eq!(Mode::AudioReactive.time_divisor(), 1_000_000_000);
}

#[test]
fn accumulator_runs_and_bounces() {
    let mut s = ControlState::new();
    let mut acc = TimeAccumulator::new();
    acc.advance(&mut s, 5);
    assert_eq!(acc.value, 5);
    acc.value = THRESHOLD - 3;
    acc.advance(&mut s, 10);
    assert_eq!(acc.value, THRESHOLD);
    assert!(s.backwards);
    acc.advance(&mut s, 0);
    assert_eq!(acc.value, THRESHOLD);
    assert!(s.backwards);
    acc.advance(&mut s, 7);
    assert_eq!(acc.value, THRESHOLD - 7);
    acc.value = -THRESHOLD + 1;
    acc.advance(&mut s, u64::MAX);
    assert_eq!(acc.value, -THRESHOLD);
    assert!(!s.backwards);
}

#[test]
fn accumulator_never_leaves_bounds() {
    let mut s = ControlState::new();
    let mut acc = TimeAccumulator::new();
    let steps = [u64::MAX, 3, THRESHOLD as u64, u64::MAX, 0, 1, u64::MAX / 2];
    let mut flips = 0;
    for dt in steps {
        let before = s.backwards;
        acc.advance(&mut s, dt);
        assert!(acc.value >= -THRESHOLD && acc.value <= THRESHOLD);
        if before != s.backwards {
            flips += 1;
        }
    }
    assert_eq!(flips, 3);
}

#[test]
fn reset_holds_zero_then_resumes() {
    let mut s = ControlState::new();
    let mut acc = TimeAccumulator::new();
    acc.value = -12_345;
    s.backwards = true;
    s.reset = true;
    acc.advance(&mut s, 999);
    assert_eq!(acc.value, 0);
    acc.advance(&mut s, 999);
    assert_eq!(acc.value, 0);
    assert!(s.backwards);
    s.reset = false;
    s.backwards = false;
    acc.advance(&mut s, 16);
    assert_eq!(acc.value, 16);
}

#[test]
fn frame_time_formula() {
    let mut s = ControlState::new();
    let mut acc = TimeAccumulator::new();
    assert_eq!(acc.frame_time(&s), 0);
    acc.value = 3_000_000_000_000;
    // 3e12 / 1e9 = 3000, plus nothing for intensity 0
    assert_eq!(acc.frame_time(&s), 3_000);
    s.set_intensity(50);
    assert_eq!(acc.frame_time(&s), 3_000 + 500_000);
    s.set_dilation(10);
    s.mode = Mode::Waves;
    // divisor 1_000 + 100_000 * 10
    assert_eq!(acc.frame_time(&s), 3_000_000_000_000 / 1_001_000 + 500_000);
    acc.value = -3_000_000_000_000;
    assert_eq!(acc.frame_time(&s), -(3_000_000_000_000 / 1_001_000) + 500_000);
}

#[test]
fn spiral_scenario_at_time_zero() {
    let s = ControlState::new();
    let acc = TimeAccumulator::new();
    let t = acc.frame_time(&s);
    assert_eq!(t, 0);
    let spectrum = Spectrum::silent(WINDOW).unwrap();
    assert_eq!(evaluate(s.mode, 2 * SCALE, 3 * SCALE, t, &spectrum, s.mode.time_divisor()), 0);
    assert_eq!(spiral(2 * SCALE, 3 * SCALE, SCALE), 6 * SCALE);
}

#[test]
fn visual_functions_values() {
    assert_eq!(waves(2 * SCALE, 6 * SCALE, SCALE / 2), 3 * SCALE / 2);
    assert_eq!(waves(0, 6 * SCALE, SCALE), 0);
    // (3 % 2 + 1000) / (4 % 2 + 1000) * 1 = 1001 / 1000
    assert_eq!(solid(4 * SCALE, 3 * SCALE, SCALE), 1_001_000);
    // 32 / (2 / 1) + 1 / (1 / 1 - 1 / 2) + 2 * (1 * 0.05) = 16 + 2 + 0.1
    assert_eq!(alt_curve(SCALE, SCALE, 2 * SCALE), 18_100_000);
}

#[test]
fn loud_bin_above_clamp_is_used_as_is() {
    let bins = vec![
        Bin { freq: hz(400), mag: 90_000_000_000_000 },
        Bin { freq: hz(600), mag: 12_500_000_000_000 },
        Bin { freq: hz(700), mag: 30_000_000_000_000 },
    ];
    assert_eq!(first_loud_magnitude(&bins), 12_500_000);
    assert_eq!(modulation_factor(&bins), 12_500_000);
}

#[test]
fn loud_bin_below_clamp_is_rescaled() {
    let bins = vec![Bin { freq: hz(600), mag: 500_000_000_000 }];
    assert_eq!(first_loud_magnitude(&bins), 500_000);
    assert_eq!(modulation_factor(&bins), 1_250_000);
}

#[test]
fn no_loud_bin_gives_neutral_factor() {
    let bins = vec![
        Bin { freq: hz(100), mag: 900_000_000_000 },
        Bin { freq: hz(600), mag: 100_000_000 },
        Bin { freq: hz(800), mag: 0 },
    ];
    assert_eq!(first_loud_magnitude(&bins), 0);
    assert_eq!(modulation_factor(&bins), SCALE);
    assert_eq!(modulation_factor(&vec![]), SCALE);
    // (y - 1) * (x * 1) * t / 100 with y = 3, x = 2, t = 100
    assert_eq!(audio_reactive(3 * SCALE, 2 * SCALE, 100 * SCALE, &bins), 4 * SCALE);
}

#[test]
fn spectrum_errors() {
    assert_eq!(Spectrum::from_bins(0, WINDOW, vec![]).unwrap_err(), AnalysisError::EmptyFrame);
    let flat = FrequencyWindow { low: 5, high: 5 };
    assert_eq!(Spectrum::from_bins(8, flat, vec![]).unwrap_err(), AnalysisError::DegenerateWindow);
    assert_eq!(Spectrum::silent(flat).unwrap_err(), AnalysisError::DegenerateWindow);
    let unordered = vec![Bin { freq: hz(200), mag: 1 }, Bin { freq: hz(100), mag: 1 }];
    assert!(!is_ordered(&unordered));
    assert_eq!(Spectrum::from_bins(8, WINDOW, unordered).unwrap_err(), AnalysisError::Unordered);
}

#[test]
fn spectrum_keeps_window_in_order() {
    let bins = vec![
        Bin { freq: 0, mag: 1 },
        Bin { freq: hz(50), mag: 2 },
        Bin { freq: hz(600), mag: 3 },
        Bin { freq: hz(600), mag: 4 },
        Bin { freq: hz(12_000), mag: 5 },
        Bin { freq: hz(20_000), mag: 6 },
    ];
    let s = spectrum_of(bins);
    let mags: Vec<u64> = s.bins().iter().map(|b| b.mag).collect();
    assert_eq!(mags, vec![2, 3, 4, 5]);
    for w in s.bins().windows(2) {
        assert!(w[0].freq <= w[1].freq);
    }
    for b in s.bins() {
        assert!(b.freq >= WINDOW.low && b.freq <= WINDOW.high);
    }
    assert_eq!(s.window(), WINDOW);
}

#[test]
fn envelope_attack_and_release() {
    let mut env = EnvelopeBuffer::new();
    assert_eq!(env.values().len(), ENVELOPE_BINS);
    let s = spectrum_of(vec![Bin { freq: hz(60), mag: 10_000 }, Bin { freq: hz(70), mag: 500 }]);
    env.smooth(&s, 9_999);
    assert_eq!(env.values()[0], 10_000);
    assert_eq!(env.values()[1], 500);
    assert_eq!(env.values()[2], 0);
    let quieter = spectrum_of(vec![Bin { freq: hz(60), mag: 20 }]);
    env.smooth(&quieter, 5_000);
    assert_eq!(env.values()[0], 5_000);
    // unmapped bucket decays too
    assert_eq!(env.values()[1], 250);
}

#[test]
fn envelope_decays_under_silence() {
    let mut env = EnvelopeBuffer::new();
    let loud = spectrum_of(vec![Bin { freq: hz(60), mag: 3 }, Bin { freq: hz(70), mag: 1_000_000 }]);
    env.smooth(&loud, DECAY_MAX);
    let zero = spectrum_of(vec![Bin { freq: hz(60), mag: 0 }, Bin { freq: hz(70), mag: 0 }]);
    let mut prev = env.values().clone();
    for _ in 0..10 {
        env.smooth(&zero, DECAY_MAX);
        for (n, p) in env.values().iter().zip(prev.iter()) {
            assert!(*n <= *p);
            if *p > 0 {
                assert!(*n < *p);
            }
        }
        prev = env.values().clone();
    }
    assert_eq!(env.values()[0], 0);
    assert_eq!(env.values()[1], 999_000);
}

#[test]
fn midi_decode_control_change() {
    let m = RawMessage { status: 0xB3, data1: 10, data2: 127 };
    assert_eq!(decode(m), Some(MidiEvent { channel: 10, value: 127 }));
    let high = RawMessage { status: 0xB0, data1: 0x8A, data2: 0xFF };
    assert_eq!(decode(high), Some(MidiEvent { channel: 10, value: 127 }));
    assert_eq!(decode(RawMessage { status: 0x90, data1: 60, data2: 100 }), None);
}

#[test]
fn midi_reset_route_then_resume() {
    let r = routes();
    let mut s = ControlState::new();
    let mut acc = TimeAccumulator::new();
    acc.advance(&mut s, 40);
    handle_msg(&r, MidiEvent { channel: 10, value: 127 }, &mut s);
    assert!(s.reset);
    acc.advance(&mut s, 40);
    assert_eq!(acc.value, 0);
    handle_msg(&r, MidiEvent { channel: 10, value: 0 }, &mut s);
    assert!(!s.reset);
    let mut last = acc.value;
    for _ in 0..5 {
        acc.advance(&mut s, 16_000);
        assert!(acc.value > last);
        last = acc.value;
    }
}

#[test]
fn midi_routes_scale_and_switch() {
    let r = routes();
    let mut s = ControlState::new();
    handle_msg(&r, MidiEvent { channel: 7, value: 127 }, &mut s);
    assert_eq!(s.intensity, 255);
    handle_msg(&r, MidiEvent { channel: 7, value: 64 }, &mut s);
    assert_eq!(s.intensity, 64 * 255 / 127);
    handle_msg(&r, MidiEvent { channel: 8, value: 1 }, &mut s);
    assert_eq!(s.dilation, 2);
    handle_msg(&r, MidiEvent { channel: 9, value: 0 }, &mut s);
    assert_eq!(s.decay, 0);
    handle_msg(&r, MidiEvent { channel: 9, value: 127 }, &mut s);
    assert_eq!(s.decay, DECAY_MAX);
    handle_msg(&r, MidiEvent { channel: 3, value: 126 }, &mut s);
    assert_eq!(s.mode, Mode::Spiral);
    handle_msg(&r, MidiEvent { channel: 3, value: 127 }, &mut s);
    assert_eq!(s.mode, Mode::Waves);
    handle_msg(&r, MidiEvent { channel: 2, value: 127 }, &mut s);
    assert_eq!(s.mode, Mode::AltCurve);
    handle_msg(&r, MidiEvent { channel: 1, value: 127 }, &mut s);
    assert!(s.backwards);
    handle_msg(&r, MidiEvent { channel: 1, value: 3 }, &mut s);
    assert!(!s.backwards);
    let before = s;
    handle_msg(&r, MidiEvent { channel: 99, value: 127 }, &mut s);
    assert_eq!(s, before);
}

#[test]
fn midi_shared_channel_compound_effect() {
    let mut r = routes();
    r.intensity = 5;
    let mut s = ControlState::new();
    handle_msg(&r, MidiEvent { channel: 5, value: 127 }, &mut s);
    assert_eq!(s.intensity, 255);
    assert_eq!(s.mode, Mode::AudioReactive);
}

#[test]
fn listener_backoff() {
    let mut l = Listener::new();
    let mut sleeps = Vec::new();
    for _ in 0..12 {
        match l.step(Poll::Empty) {
            ListenerAction::Sleep(ms) => sleeps.push(ms),
            other => panic!("unexpected {:?}", other),
        }
    }
    assert_eq!(sleeps, vec![10, 20, 30, 40, 50, 60, 70, 80, 90, 100, 100, 100]);
    let m = RawMessage { status: 0xB0, data1: 4, data2: 127 };
    assert_eq!(l.step(Poll::Message(m)), ListenerAction::Apply(MidiEvent { channel: 4, value: 127 }));
    assert_eq!(l.backoff, 0);
    assert_eq!(l.step(Poll::Empty), ListenerAction::Sleep(10));
    let note = RawMessage { status: 0x90, data1: 4, data2: 127 };
    assert_eq!(l.step(Poll::Message(note)), ListenerAction::Skip);
    assert_eq!(l.backoff, 0);
    assert_eq!(l.step(Poll::Failed), ListenerAction::Stop);
    assert_eq!(l.step(Poll::Message(m)), ListenerAction::Stop);
    assert_eq!(l.step(Poll::Empty), ListenerAction::Stop);
}

#[test]
fn engine_frames() {
    let mut s = ControlState::new();
    let mut e = Engine::new(Spectrum::silent(WINDOW).unwrap());
    let loud = spectrum_of(vec![Bin { freq: hz(600), mag: 12_500_000_000_000 }]);
    s.mode = Mode::AudioReactive;
    let f = e.begin_frame(&mut s, 1_000_000_000_000, Ok(loud));
    assert_eq!(e.time.value, 1_000_000_000_000);
    assert_eq!(f.time_divisor, 1_000_000_000);
    assert_eq!(f.t, 1_000);
    assert_eq!(e.envelope.values()[0], 12_500_000_000_000);
    let f2 = e.begin_frame(&mut s, 1_000_000_000_000, Err(AnalysisError::EmptyFrame));
    assert_eq!(e.spectrum.bins().len(), 1);
    assert_eq!(e.envelope.values()[0], 12_500_000_000_000);
    assert_eq!(f2.t, 2_000);
    // m = 12.5: (2 - 12.5) * (4 * 12.5) * 0.002 / 100
    let h = e.hue(&s, f2, 2 * SCALE, 4 * SCALE);
    assert_eq!(h, -10_500);
}
