use triosc::engine::{NoteEvent, SineSynth, POOL_SIZE};
use triosc::envelope::EnvelopeStage;
use triosc::filter::FilterMode;
use triosc::fixed::Q_ONE;
use triosc::osc::Waveform;
use triosc::params::{OscSettings, SineParams};
use triosc::voice::Voice;

const HZ: i64 = 65536;
const SR: u32 = 44100;

fn quiet_osc() -> OscSettings {
    OscSettings {
        waveform: Waveform::Sine,
        frequency: 440 * HZ,
        detune_cents: 0,
        phase_offset: 0,
        gain: 0,
        octave: 0,
        unison_voices: 1,
        unison_detune: 0,
        unison_blend: 0,
        unison_volume: Q_ONE,
    }
}

fn single_sine_params() -> SineParams {
    SineParams {
        osc1: OscSettings {
            gain: Q_ONE,
            ..quiet_osc()
        },
        osc2: quiet_osc(),
        osc3: quiet_osc(),
        filter_mode: FilterMode::LowPass,
        filter_cutoff: 20_000 * HZ,
        filter_resonance: 0,
        filter_drive: Q_ONE,
        attack: 66,
        decay: 66,
        sustain: Q_ONE,
        release: 66,
    }
}

#[test]
fn note_69_is_exactly_concert_a() {
    let mut v = Voice::new(SR);
    v.note_on(69, Q_ONE);
    assert_eq!(v.base_frequency, 440 * HZ);
    assert!(v.active);
}

#[test]
fn note_frequencies_follow_equal_temperament() {
    for (note, want) in [(57u8, 220.0f64), (69, 440.0), (81, 880.0), (60, 261.6256)] {
        let mut v = Voice::new(SR);
        v.note_on(note, Q_ONE);
        let got = v.base_frequency as f64 / HZ as f64;
        assert!(
            (got - want).abs() / want < 0.001,
            "note {note}: {got} vs {want}"
        );
    }
}

#[test]
fn note_on_rewinds_the_voice() {
    let mut v = Voice::new(SR);
    v.note_on(60, Q_ONE);
    let p = single_sine_params();
    for _ in 0..50 {
        v.render_tick(&p);
    }
    assert!(v.osc1.voices[0].phase != 0);
    v.note_on(72, Q_ONE / 2);
    assert_eq!(v.osc1.voices[0].phase, 0);
    assert_eq!(v.filter.x1, 0);
    assert_eq!(v.filter.y1, 0);
    assert_eq!(v.envelope.stage, EnvelopeStage::Attack);
    assert_eq!(v.envelope.samples_elapsed, 0);
    assert_eq!(v.note, 72);
    assert_eq!(v.velocity, Q_ONE / 2);
}

#[test]
fn pool_fills_before_it_steals() {
    let mut s = SineSynth::new(SR);
    for k in 0..POOL_SIZE as u8 {
        s.note_on(40 + k, Q_ONE);
    }
    for (i, v) in s.voices.iter().enumerate() {
        assert!(v.active, "voice {i}");
        assert_eq!(v.note, 40 + i as u8);
    }
}

#[test]
fn seventeenth_note_steals_exactly_one_voice() {
    // Sixteen notes fill the pool; the seventeenth steals exactly one
    // voice, and the stolen voice plays the new note.
    let mut s = SineSynth::new(SR);
    for k in 0..POOL_SIZE as u8 {
        s.note_on(40 + k, Q_ONE);
    }
    s.note_on(90, Q_ONE);
    let playing_new: Vec<usize> = (0..POOL_SIZE)
        .filter(|&i| s.voices[i].note == 90)
        .collect();
    assert_eq!(playing_new.len(), 1, "exactly one steal");
    let kept = (0..POOL_SIZE)
        .filter(|&i| s.voices[i].note != 90)
        .count();
    assert_eq!(kept, POOL_SIZE - 1);
    assert!(s.voices[playing_new[0]].active);
    // With every stage clock equal, the tie breaks toward pool order.
    assert_eq!(playing_new[0], 0);
}

#[test]
fn steal_prefers_the_youngest_stage_clock() {
    let mut s = SineSynth::new(SR);
    let p = single_sine_params();
    for k in 0..POOL_SIZE as u8 {
        s.note_on(40 + k, Q_ONE);
    }
    // Let every envelope's stage clock advance, then retrigger one note:
    // its voice re-enters Attack and becomes the youngest.
    for _ in 0..10 {
        s.process_sample(&p);
    }
    s.note_off(45);
    s.note_on(45, Q_ONE);
    s.note_on(99, Q_ONE);
    let target = (0..POOL_SIZE).find(|&i| s.voices[i].note == 99).unwrap();
    assert_eq!(target, 5, "the freshest voice gives way");
}

#[test]
fn zero_velocity_note_on_is_ignored() {
    let mut s = SineSynth::new(SR);
    s.note_on(60, 0);
    assert!(s.voices.iter().all(|v| !v.active));
    s.note_on(60, -5);
    assert!(s.voices.iter().all(|v| !v.active));
}

#[test]
fn note_off_releases_every_matching_voice() {
    let mut s = SineSynth::new(SR);
    s.note_on(60, Q_ONE);
    s.note_on(64, Q_ONE);
    s.note_off(60);
    assert_eq!(s.voices[0].envelope.stage, EnvelopeStage::Release);
    assert_eq!(s.voices[1].envelope.stage, EnvelopeStage::Attack);
    assert!(s.voices[0].active, "released voice keeps sounding");
}

#[test]
fn choke_silences_everything_at_once() {
    let mut s = SineSynth::new(SR);
    for k in 0..8u8 {
        s.note_on(50 + k, Q_ONE);
    }
    s.handle_event(NoteEvent::Choke);
    for v in s.voices.iter() {
        assert!(!v.active);
        assert_eq!(v.envelope.stage, EnvelopeStage::Idle);
        assert_eq!(v.envelope.current_level, 0);
    }
    let p = single_sine_params();
    let mut s2 = s;
    assert_eq!(s2.process_sample(&p), 0);
}

#[test]
fn events_apply_in_arrival_order() {
    let mut s = SineSynth::new(SR);
    let events = vec![
        NoteEvent::NoteOn {
            note: 60,
            velocity: Q_ONE,
        },
        NoteEvent::NoteOff { note: 60 },
        NoteEvent::NoteOn {
            note: 62,
            velocity: Q_ONE,
        },
    ];
    s.handle_events(&events);
    assert_eq!(s.voices[0].note, 60);
    assert_eq!(s.voices[0].envelope.stage, EnvelopeStage::Release);
    assert_eq!(s.voices[1].note, 62);
    assert_eq!(s.voices[1].envelope.stage, EnvelopeStage::Attack);
}

#[test]
fn silence_renders_as_zero() {
    let mut s = SineSynth::new(SR);
    let p = single_sine_params();
    for _ in 0..100 {
        assert_eq!(s.process_sample(&p), 0);
    }
}

#[test]
fn master_output_never_leaves_half_headroom() {
    let mut s = SineSynth::new(SR);
    let mut p = single_sine_params();
    p.osc1.waveform = Waveform::Square;
    p.osc2 = OscSettings {
        gain: Q_ONE,
        waveform: Waveform::Sawtooth,
        ..quiet_osc()
    };
    p.osc3 = OscSettings {
        gain: Q_ONE,
        ..quiet_osc()
    };
    p.filter_drive = 5 * Q_ONE;
    p.filter_resonance = Q_ONE;
    for k in 0..POOL_SIZE as u8 {
        s.note_on(30 + 3 * k, Q_ONE);
    }
    for n in 0..2000 {
        let out = s.process_sample(&p);
        assert!(out.abs() <= Q_ONE / 2, "sample {n}: {out}");
    }
}

#[test]
fn voice_frees_itself_after_release() {
    let mut s = SineSynth::new(SR);
    let p = single_sine_params();
    s.note_on(60, Q_ONE);
    for _ in 0..200 {
        s.process_sample(&p);
    }
    s.note_off(60);
    for _ in 0..200 {
        s.process_sample(&p);
    }
    assert!(!s.voices[0].active, "release of about a millisecond is over");
    s.note_on(72, Q_ONE);
    assert_eq!(s.voices[0].note, 72, "the freed voice is reused first");
}

#[test]
fn rendered_sine_matches_the_true_sine_through_the_attack() {
    // Sample rate 44100, one sine voice at concert A, wide-open low-pass:
    // the first samples trace a rising sine from zero, within the attack
    // ramp's tolerance.
    let mut s = SineSynth::new(SR);
    let p = single_sine_params();
    s.note_on(69, Q_ONE);
    let attack_samples: f64 = 66.0 * 44100.0 / 65536.0; // the millisecond attack
    let dur = attack_samples.floor().max(1.0);
    for n in 0..20 {
        let out = s.process_sample(&p) as f64 / Q_ONE as f64;
        let level = 1.0 - (-5.0 * n as f64 / dur).exp();
        let pure = (std::f64::consts::TAU * 440.0 * n as f64 / 44100.0).sin();
        let want = 0.5 * (pure * level).tanh();
        assert!(
            (out - want).abs() < 0.05,
            "sample {n}: {out} vs {want}"
        );
    }
}
