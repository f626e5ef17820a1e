use triosc::fixed::{cosine_q, exp2_q, exp_decay5_q, freq_scale, mul_div, sine_q, tanh_q, Q_ONE};
use triosc::filter::{BiquadFilter, FilterMode};
use triosc::osc::{generate, UnisonOscillator, Waveform};

const ONE_F: f64 = (1i64 << 24) as f64;
const CYCLE_F: f64 = 4294967296.0;

fn to_f(x: i64) -> f64 {
    x as f64 / ONE_F
}

#[test]
fn mul_div_rounds_toward_zero() {
    assert_eq!(mul_div(3 * Q_ONE, Q_ONE / 2, Q_ONE), 3 * Q_ONE / 2);
    assert_eq!(mul_div(-3 * Q_ONE, Q_ONE / 2, Q_ONE), -(3 * Q_ONE / 2));
    assert_eq!(mul_div(7, 1, 2), 3);
    assert_eq!(mul_div(-7, 1, 2), -3);
    assert_eq!(mul_div(5, 0, 9), 0);
}

#[test]
fn sine_hits_the_cardinal_points() {
    assert_eq!(sine_q(0), 0);
    assert_eq!(sine_q(1u64 << 30), Q_ONE);
    assert_eq!(sine_q(1u64 << 31), 0);
    assert_eq!(sine_q(3u64 << 30), -Q_ONE);
    assert_eq!(sine_q(1u64 << 32), 0);
}

#[test]
fn sine_tracks_the_true_sine() {
    for k in 0..512u64 {
        let phase = k << 23;
        let got = to_f(sine_q(phase));
        let want = (phase as f64 / CYCLE_F * std::f64::consts::TAU).sin();
        assert!((got - want).abs() < 0.003, "phase {k}: {got} vs {want}");
        assert!(got.abs() <= 1.0);
    }
}

#[test]
fn cosine_is_the_shifted_sine() {
    assert_eq!(cosine_q(0), Q_ONE);
    assert_eq!(cosine_q(1u64 << 30), 0);
    assert_eq!(cosine_q(1u64 << 31), -Q_ONE);
}

#[test]
fn exp2_hits_whole_powers_exactly() {
    assert_eq!(exp2_q(0), Q_ONE);
    assert_eq!(exp2_q(Q_ONE), 2 * Q_ONE);
    assert_eq!(exp2_q(4 * Q_ONE), 16 * Q_ONE);
    assert_eq!(exp2_q(-Q_ONE), Q_ONE / 2);
    assert_eq!(exp2_q(-2 * Q_ONE), Q_ONE / 4);
}

#[test]
fn exp2_tracks_the_true_curve() {
    for k in -48..=48i64 {
        let e = k * Q_ONE / 12;
        let got = exp2_q(e) as f64 / ONE_F;
        let want = (e as f64 / ONE_F).exp2();
        assert!(
            (got - want).abs() / want < 0.002,
            "e {k}/12: {got} vs {want}"
        );
    }
}

#[test]
fn frequencies_saturate_instead_of_overflowing() {
    let cap = 0x10_0000_0000i64;
    assert_eq!(freq_scale(cap, 1000 * Q_ONE), cap);
    assert_eq!(freq_scale(440 * 65536, Q_ONE), 440 * 65536);
    assert_eq!(freq_scale(440 * 65536, 2 * Q_ONE), 880 * 65536);
    assert_eq!(freq_scale(440 * 65536, 0), 0);
}

#[test]
fn exp_decay_tracks_the_true_curve() {
    assert_eq!(exp_decay5_q(0), Q_ONE);
    for k in 0..=64i64 {
        let p = k * Q_ONE / 64;
        let got = to_f(exp_decay5_q(p));
        let want = (-5.0 * p as f64 / ONE_F).exp();
        assert!((got - want).abs() < 0.01, "p {k}: {got} vs {want}");
        assert!((0.0..=1.0).contains(&got));
    }
}

#[test]
fn tanh_tracks_the_true_curve() {
    assert_eq!(tanh_q(0), 0);
    for k in -40..=40i64 {
        let x = k * Q_ONE / 10;
        let got = to_f(tanh_q(x));
        let want = (x as f64 / ONE_F).tanh();
        assert!((got - want).abs() < 0.025, "x {k}: {got} vs {want}");
        assert!(got.abs() <= 1.0);
    }
}

#[test]
fn generate_is_bounded_for_every_waveform() {
    let waveforms = [
        Waveform::Sine,
        Waveform::Square,
        Waveform::Triangle,
        Waveform::Sawtooth,
    ];
    for w in waveforms {
        for k in 0..4096u64 {
            let phase = k.wrapping_mul(0x9E3779B97F4A7C15);
            let s = generate(w, phase);
            assert!(-Q_ONE <= s && s <= Q_ONE, "{w:?} at {phase}");
        }
    }
}

#[test]
fn generate_shapes_are_right() {
    let quarter = 1u64 << 30;
    let half = 1u64 << 31;
    assert_eq!(generate(Waveform::Square, 0), Q_ONE);
    assert_eq!(generate(Waveform::Square, half), -Q_ONE);
    assert_eq!(generate(Waveform::Triangle, 0), 0);
    assert_eq!(generate(Waveform::Triangle, quarter), Q_ONE);
    assert_eq!(generate(Waveform::Triangle, half), 0);
    assert_eq!(generate(Waveform::Triangle, half + quarter), -Q_ONE);
    assert_eq!(generate(Waveform::Sawtooth, 0), -Q_ONE);
    assert_eq!(generate(Waveform::Sawtooth, half), 0);
}

#[test]
fn single_voice_bank_matches_generate_exactly() {
    // A bank with one live voice must be bit-identical to the bare
    // generator on the center phase, with no detune applied.
    let mut bank = UnisonOscillator::new(8);
    let phase_offset = 0x1234_5678u64;
    let mut expected_phase = 0u64;
    for step in 0..200 {
        let direct = generate(Waveform::Triangle, expected_phase + phase_offset);
        let out = bank.process(
            Waveform::Triangle,
            440 * 65536,
            37 * 65536, // a detune width that must not matter with one voice
            phase_offset,
            Q_ONE / 3, // a blend that must not matter with one voice
            Q_ONE,
            44100,
        );
        assert_eq!(out, direct, "step {step}");
        let incr = (440u64 * 65536 * 65536 / 44100) % (1u64 << 32);
        expected_phase = (expected_phase + incr) % (1u64 << 32);
    }
}

#[test]
fn unison_stack_is_bounded_and_symmetric() {
    let mut bank = UnisonOscillator::new(8);
    bank.set_num_voices(7);
    assert_eq!(bank.num_voices, 7);
    for i in 0..7usize {
        let a = bank.voices[i].detune_offset;
        let b = bank.voices[6 - i].detune_offset;
        assert_eq!(a, -b, "offsets must mirror around the center");
        assert!(a.abs() <= Q_ONE);
    }
    assert_eq!(bank.voices[3].detune_offset, 0);
    bank.set_num_voices(3);
    assert_eq!(bank.voices[0].detune_offset, -Q_ONE);
    assert_eq!(bank.voices[1].detune_offset, 0);
    assert_eq!(bank.voices[2].detune_offset, Q_ONE);
    for _ in 0..100 {
        let out = bank.process(
            Waveform::Sawtooth,
            880 * 65536,
            25 * 65536,
            0,
            Q_ONE / 2,
            Q_ONE,
            48000,
        );
        assert!(out.abs() <= Q_ONE);
    }
}

#[test]
fn set_num_voices_clamps_and_keeps_phases() {
    let mut bank = UnisonOscillator::new(8);
    bank.process(Waveform::Sine, 440 * 65536, 0, 0, 0, Q_ONE, 44100);
    let phase = bank.voices[0].phase;
    bank.set_num_voices(99);
    assert_eq!(bank.num_voices, 8);
    assert_eq!(bank.voices[0].phase, phase);
    bank.set_num_voices(0);
    assert_eq!(bank.num_voices, 1);
    assert_eq!(bank.voices[0].detune_offset, 0);
}

#[test]
fn filter_impulse_never_runs_away() {
    // Feeding a unit impulse must never produce runaway output, across the
    // whole resonance range and the whole usable cutoff band.
    let sr = 44100u32;
    let cutoffs = [20i64 * 65536, 1000 * 65536, 21609 * 65536];
    let resonances = [0i64, Q_ONE / 2, Q_ONE];
    for &c in &cutoffs {
        for &r in &resonances {
            let mut f = BiquadFilter::new(sr);
            f.set_coefficients(FilterMode::LowPass, c, r);
            let mut first_half_max = 0i64;
            let mut second_half_max = 0i64;
            for n in 0..10_000 {
                let input = if n == 0 { Q_ONE } else { 0 };
                let out = f.process(input, Q_ONE);
                assert!(out.abs() <= 4 * Q_ONE, "cutoff {c} res {r} sample {n}");
                if n < 5_000 {
                    first_half_max = first_half_max.max(out.abs());
                } else {
                    second_half_max = second_half_max.max(out.abs());
                }
            }
            assert!(
                second_half_max <= first_half_max,
                "cutoff {c} res {r}: tail grew"
            );
        }
    }
}

#[test]
fn filter_passes_dc_when_wide_open() {
    let mut f = BiquadFilter::new(44100);
    f.set_coefficients(FilterMode::LowPass, 20_000 * 65536, 0);
    let mut out = 0i64;
    for _ in 0..2000 {
        out = f.process(Q_ONE / 2, Q_ONE);
    }
    assert!((to_f(out) - 0.5).abs() < 0.02, "{}", to_f(out));
}

#[test]
fn filter_drive_saturates_softly() {
    let mut f = BiquadFilter::new(44100);
    f.set_coefficients(FilterMode::LowPass, 20_000 * 65536, 0);
    let mut loud = 0i64;
    for _ in 0..2000 {
        loud = f.process(2 * Q_ONE, 4 * Q_ONE);
    }
    // tanh(8)/tanh(4) is just above one: the drive stage compresses the
    // peak instead of quadrupling it.
    assert!(to_f(loud) < 1.2, "{}", to_f(loud));
    assert!(to_f(loud) > 0.8, "{}", to_f(loud));
}

#[test]
fn filter_reset_clears_the_tail() {
    let mut f = BiquadFilter::new(44100);
    f.set_coefficients(FilterMode::LowPass, 500 * 65536, Q_ONE / 2);
    for _ in 0..100 {
        f.process(Q_ONE, Q_ONE);
    }
    f.reset();
    assert_eq!(f.x1, 0);
    assert_eq!(f.x2, 0);
    assert_eq!(f.y1, 0);
    assert_eq!(f.y2, 0);
    let out = f.process(0, Q_ONE);
    assert_eq!(out, 0);
}
