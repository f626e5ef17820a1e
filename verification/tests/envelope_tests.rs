use triosc::envelope::{Envelope, EnvelopeStage};
use triosc::fixed::Q_ONE;

const SR: u32 = 44100;
const HZ: i64 = 65536;

fn stage_samples(secs_q16: i64, sr: u32) -> i64 {
    let d = secs_q16 * sr as i64 / HZ;
    if d < 1 {
        1
    } else {
        d
    }
}

#[test]
fn fresh_envelope_is_idle_and_silent() {
    let e = Envelope::new(SR);
    assert_eq!(e.stage, EnvelopeStage::Idle);
    assert_eq!(e.current_level, 0);
    assert!(!e.is_active());
}

#[test]
fn idle_envelope_stays_silent() {
    let mut e = Envelope::new(SR);
    for _ in 0..100 {
        let level = e.process(655, 655, Q_ONE / 2, 655);
        assert_eq!(level, 0);
        assert_eq!(e.stage, EnvelopeStage::Idle);
    }
}

#[test]
fn attack_completes_at_full_level() {
    // After note-on, one process call more than the attack time lands in
    // Decay at exactly full level.
    let mut e = Envelope::new(SR);
    e.note_on();
    assert_eq!(e.stage, EnvelopeStage::Attack);
    let attack = 655i64; // very nearly ten milliseconds
    let dur = stage_samples(attack, SR);
    let mut last = 0i64;
    for _ in 0..dur {
        let level = e.process(attack, 32768, Q_ONE / 2, 655);
        assert_eq!(e.stage, EnvelopeStage::Attack);
        assert!(level >= last, "attack must not fall");
        last = level;
    }
    let level = e.process(attack, 32768, Q_ONE / 2, 655);
    assert_eq!(level, Q_ONE);
    assert_eq!(e.stage, EnvelopeStage::Decay);
}

#[test]
fn decay_settles_on_the_sustain_level() {
    let mut e = Envelope::new(SR);
    e.note_on();
    let attack = 66i64;
    let decay = 655i64;
    let sustain = 3 * Q_ONE / 4;
    let a_dur = stage_samples(attack, SR);
    let d_dur = stage_samples(decay, SR);
    for _ in 0..(a_dur + 1 + d_dur + 1) {
        e.process(attack, decay, sustain, 655);
    }
    assert_eq!(e.stage, EnvelopeStage::Sustain);
    assert_eq!(e.current_level, sustain);
    for _ in 0..100 {
        let level = e.process(attack, decay, sustain, 655);
        assert_eq!(level, sustain);
        assert_eq!(e.stage, EnvelopeStage::Sustain);
    }
}

#[test]
fn release_from_sustain_reaches_idle() {
    // Note-off during Sustain, then one process call more than the release
    // time: exactly silent and Idle.
    let mut e = Envelope::new(SR);
    e.note_on();
    let attack = 66i64;
    let decay = 66i64;
    let sustain = Q_ONE / 2;
    let release = 655i64;
    let a_dur = stage_samples(attack, SR);
    let d_dur = stage_samples(decay, SR);
    for _ in 0..(a_dur + 1 + d_dur + 1 + 50) {
        e.process(attack, decay, sustain, release);
    }
    assert_eq!(e.stage, EnvelopeStage::Sustain);
    e.note_off();
    assert_eq!(e.stage, EnvelopeStage::Release);
    assert_eq!(e.release_start_level, sustain);
    let r_dur = stage_samples(release, SR);
    let mut last = sustain;
    for _ in 0..r_dur {
        let level = e.process(attack, decay, sustain, release);
        assert_eq!(e.stage, EnvelopeStage::Release);
        assert!(level <= last, "release must not rise");
        last = level;
    }
    let level = e.process(attack, decay, sustain, release);
    assert_eq!(level, 0);
    assert_eq!(e.stage, EnvelopeStage::Idle);
    assert!(!e.is_active());
}

#[test]
fn release_is_reachable_from_attack() {
    let mut e = Envelope::new(SR);
    e.note_on();
    for _ in 0..10 {
        e.process(655, 655, Q_ONE / 2, 655);
    }
    let mid = e.current_level;
    assert!(mid > 0);
    e.note_off();
    assert_eq!(e.stage, EnvelopeStage::Release);
    assert_eq!(e.release_start_level, mid);
}

#[test]
fn note_off_when_idle_does_nothing() {
    let mut e = Envelope::new(SR);
    e.note_off();
    assert_eq!(e.stage, EnvelopeStage::Idle);
    assert_eq!(e.samples_elapsed, 0);
}

#[test]
fn short_stage_times_floor_at_one_sample() {
    let mut e = Envelope::new(SR);
    e.note_on();
    // A zero-length attack still takes one curve call and one snap call.
    e.process(0, 0, Q_ONE, 0);
    let level = e.process(0, 0, Q_ONE, 0);
    assert_eq!(level, Q_ONE);
    assert_eq!(e.stage, EnvelopeStage::Decay);
}

#[test]
fn envelope_level_stays_in_range() {
    let mut e = Envelope::new(SR);
    e.note_on();
    for n in 0..5000 {
        let level = e.process(655, 655, Q_ONE / 3, 655);
        assert!((0..=Q_ONE).contains(&level), "sample {n}");
        if n == 2500 {
            e.note_off();
        }
    }
    assert_eq!(e.stage, EnvelopeStage::Idle);
    assert_eq!(e.current_level, 0);
}
