//! The five-stage envelope generator.
//!
//! Levels are Q24 fractions in `[0, Q_ONE]`; stage times arrive as Q16
//! seconds and are converted to whole sample counts, floored at one so no
//! division by zero can occur. Each stage holds an exponential curve; when a
//! stage's time has elapsed the level snaps to the stage's end point exactly
//! and the next stage begins. The elapsed-sample counter saturates instead
//! of wrapping, so arithmetic stays total even for notes held forever.

use vstd::prelude::*;
use crate::fixed::HZ_ONE;
use crate::fixed::Q_ONE;
use crate::fixed::exp_decay5_q;
use crate::fixed::lemma_div_below;
use crate::fixed::mul_div;
use crate::fixed::spec_exp_decay5;
use crate::fixed::spec_mul_div;

verus! {

/// Where the envelope is in its life cycle.
#[derive(Clone, Copy, PartialEq, Eq, Structural, Debug)]
pub enum EnvelopeStage {
    Idle,
    Attack,
    Decay,
    Sustain,
    Release,
}

/// The envelope generator of one voice.
#[derive(Clone, Copy)]
pub struct Envelope {
    /// Current stage of the state machine.
    pub stage: EnvelopeStage,
    /// Last produced level, Q24 in `[0, Q_ONE]`; zero whenever idle.
    pub current_level: i64,
    /// Sample rate the stage times are measured against.
    pub sample_rate: u32,
    /// Samples spent in the current stage; reset on every transition,
    /// saturating at its maximum.
    pub samples_elapsed: u32,
    /// Level from which the release curve decays.
    pub release_start_level: i64,
}

/// How many samples a stage lasts: its length in Q16 seconds at the sample
/// rate, never less than one sample.
pub open spec fn spec_stage_samples(secs: int, sr: int) -> int {
    let d = secs * sr / (HZ_ONE as int);
    if d < 1 {
        1
    } else {
        d
    }
}

/// The elapsed-sample counter steps forward without wrapping.
pub open spec fn spec_sat_inc(x: int) -> int {
    if x < u32::MAX {
        x + 1
    } else {
        x
    }
}

/// The attack curve at `elapsed` of `dur` samples: rises from zero toward
/// one as `1 - exp(-5 t)`.
pub open spec fn spec_attack_level(elapsed: int, dur: int) -> int {
    Q_ONE - spec_exp_decay5(elapsed * (Q_ONE as int) / dur)
}

/// The decay curve: falls from one toward the sustain level.
pub open spec fn spec_decay_level(elapsed: int, dur: int, sustain: int) -> int {
    sustain + spec_mul_div(
        Q_ONE - sustain,
        spec_exp_decay5(elapsed * (Q_ONE as int) / dur),
        Q_ONE as int,
    )
}

/// The release curve: falls from the captured start level toward zero.
pub open spec fn spec_release_level(start: int, elapsed: int, dur: int) -> int {
    spec_mul_div(start, spec_exp_decay5(elapsed * (Q_ONE as int) / dur), Q_ONE as int)
}

/// One `process` call: the stage machine steps once and the counter
/// advances. Stage times are re-read every call, so a parameter change
/// retimes the remaining part of the current stage.
pub open spec fn spec_env_step(e: Envelope, attack: int, decay: int, sustain: int, release: int) -> Envelope {
    match e.stage {
        EnvelopeStage::Idle => Envelope {
            current_level: 0,
            samples_elapsed: spec_sat_inc(e.samples_elapsed as int) as u32,
            ..e
        },
        EnvelopeStage::Attack => {
            let dur = spec_stage_samples(attack, e.sample_rate as int);
            if e.samples_elapsed >= dur {
                Envelope {
                    stage: EnvelopeStage::Decay,
                    current_level: Q_ONE as i64,
                    samples_elapsed: 1,
                    ..e
                }
            } else {
                Envelope {
                    current_level: spec_attack_level(e.samples_elapsed as int, dur) as i64,
                    samples_elapsed: spec_sat_inc(e.samples_elapsed as int) as u32,
                    ..e
                }
            }
        },
        EnvelopeStage::Decay => {
            let dur = spec_stage_samples(decay, e.sample_rate as int);
            if e.samples_elapsed >= dur {
                Envelope {
                    stage: EnvelopeStage::Sustain,
                    current_level: sustain as i64,
                    samples_elapsed: 1,
                    ..e
                }
            } else {
                Envelope {
                    current_level: spec_decay_level(e.samples_elapsed as int, dur, sustain) as i64,
                    samples_elapsed: spec_sat_inc(e.samples_elapsed as int) as u32,
                    ..e
                }
            }
        },
        EnvelopeStage::Sustain => Envelope {
            current_level: sustain as i64,
            samples_elapsed: spec_sat_inc(e.samples_elapsed as int) as u32,
            ..e
        },
        EnvelopeStage::Release => {
            let dur = spec_stage_samples(release, e.sample_rate as int);
            if e.samples_elapsed >= dur {
                Envelope {
                    stage: EnvelopeStage::Idle,
                    current_level: 0,
                    samples_elapsed: 1,
                    ..e
                }
            } else {
                Envelope {
                    current_level: spec_release_level(
                        e.release_start_level as int,
                        e.samples_elapsed as int,
                        dur,
                    ) as i64,
                    samples_elapsed: spec_sat_inc(e.samples_elapsed as int) as u32,
                    ..e
                }
            }
        },
    }
}

/// The envelope after `n` `process` calls with constant stage parameters.
pub open spec fn spec_env_run(
    e: Envelope,
    attack: int,
    decay: int,
    sustain: int,
    release: int,
    n: nat,
) -> Envelope
    decreases n,
{
    if n == 0 {
        e
    } else {
        spec_env_step(
            spec_env_run(e, attack, decay, sustain, release, (n - 1) as nat),
            attack,
            decay,
            sustain,
            release,
        )
    }
}

/// While the attack time has not elapsed, the envelope stays in Attack and
/// its stage clock counts every call.
proof fn lemma_attack_run(e: Envelope, attack: int, decay: int, sustain: int, release: int, k: nat)
    requires
        e.stage == EnvelopeStage::Attack,
        e.samples_elapsed == 0,
        k <= spec_stage_samples(attack, e.sample_rate as int),
        spec_stage_samples(attack, e.sample_rate as int) < u32::MAX,
    ensures
        spec_env_run(e, attack, decay, sustain, release, k).stage == EnvelopeStage::Attack,
        spec_env_run(e, attack, decay, sustain, release, k).samples_elapsed == k,
        spec_env_run(e, attack, decay, sustain, release, k).sample_rate == e.sample_rate,
    decreases k,
{
    if k > 0 {
        lemma_attack_run(e, attack, decay, sustain, release, (k - 1) as nat);
    }
}

/// After a note starts the attack stage, one `process` call more than the
/// whole attack time leaves the envelope in Decay at exactly full level.
pub proof fn lemma_attack_reaches_full_level(
    e: Envelope,
    attack: int,
    decay: int,
    sustain: int,
    release: int,
)
    requires
        e.stage == EnvelopeStage::Attack,
        e.samples_elapsed == 0,
        spec_stage_samples(attack, e.sample_rate as int) < u32::MAX,
    ensures
        ({
            let n = (spec_stage_samples(attack, e.sample_rate as int) + 1) as nat;
            let done = spec_env_run(e, attack, decay, sustain, release, n);
            done.stage == EnvelopeStage::Decay && done.current_level == Q_ONE
        }),
{
    let dur = spec_stage_samples(attack, e.sample_rate as int);
    lemma_attack_run(e, attack, decay, sustain, release, dur as nat);
}

/// While the release time has not elapsed, the envelope stays in Release
/// and its stage clock counts every call.
proof fn lemma_release_run(e: Envelope, attack: int, decay: int, sustain: int, release: int, k: nat)
    requires
        e.stage == EnvelopeStage::Release,
        e.samples_elapsed == 0,
        k <= spec_stage_samples(release, e.sample_rate as int),
        spec_stage_samples(release, e.sample_rate as int) < u32::MAX,
    ensures
        spec_env_run(e, attack, decay, sustain, release, k).stage == EnvelopeStage::Release,
        spec_env_run(e, attack, decay, sustain, release, k).samples_elapsed == k,
        spec_env_run(e, attack, decay, sustain, release, k).sample_rate == e.sample_rate,
    decreases k,
{
    if k > 0 {
        lemma_release_run(e, attack, decay, sustain, release, (k - 1) as nat);
    }
}

/// After a note-off enters the release stage, one `process` call more than
/// the whole release time leaves the envelope Idle and exactly silent.
pub proof fn lemma_release_reaches_idle(
    e: Envelope,
    attack: int,
    decay: int,
    sustain: int,
    release: int,
)
    requires
        e.stage == EnvelopeStage::Release,
        e.samples_elapsed == 0,
        spec_stage_samples(release, e.sample_rate as int) < u32::MAX,
    ensures
        ({
            let n = (spec_stage_samples(release, e.sample_rate as int) + 1) as nat;
            let done = spec_env_run(e, attack, decay, sustain, release, n);
            done.stage == EnvelopeStage::Idle && done.current_level == 0
        }),
{
    let dur = spec_stage_samples(release, e.sample_rate as int);
    lemma_release_run(e, attack, decay, sustain, release, dur as nat);
}

impl Envelope {
    /// Structural invariant: levels are Q24 fractions, an idle envelope is
    /// silent, and the sample rate is a sane audio rate.
    pub open spec fn wf(&self) -> bool {
        &&& 0 <= self.current_level <= Q_ONE
        &&& 0 <= self.release_start_level <= Q_ONE
        &&& 1 <= self.sample_rate <= 1_000_000
        &&& self.stage == EnvelopeStage::Idle ==> self.current_level == 0
    }

    /// A fresh, silent envelope.
    pub fn new(sample_rate: u32) -> (r: Self)
        requires
            1 <= sample_rate <= 1_000_000,
        ensures
            r.wf(),
            r.stage == EnvelopeStage::Idle,
            r.current_level == 0,
            r.sample_rate == sample_rate,
            r.samples_elapsed == 0,
            r.release_start_level == 0,
    {
        Envelope {
            stage: EnvelopeStage::Idle,
            current_level: 0,
            sample_rate,
            samples_elapsed: 0,
            release_start_level: 0,
        }
    }

    /// Change the sample rate the stage times are measured against.
    pub fn set_sample_rate(&mut self, sample_rate: u32)
        requires
            old(self).wf(),
            1 <= sample_rate <= 1_000_000,
        ensures
            final(self).wf(),
            *final(self) == (Envelope { sample_rate, ..*old(self) }),
    {
        self.sample_rate = sample_rate;
    }

    /// A new note begins: enter Attack and restart the stage clock, from
    /// any stage.
    pub fn note_on(&mut self)
        requires
            old(self).wf(),
        ensures
            final(self).wf(),
            *final(self) == (Envelope {
                stage: EnvelopeStage::Attack,
                samples_elapsed: 0,
                ..*old(self)
            }),
    {
        self.stage = EnvelopeStage::Attack;
        self.samples_elapsed = 0;
    }

    /// The note ends: a sounding envelope captures its level and enters
    /// Release; an idle one stays idle.
    pub fn note_off(&mut self)
        requires
            old(self).wf(),
        ensures
            final(self).wf(),
            old(self).stage != EnvelopeStage::Idle ==> *final(self) == (Envelope {
                stage: EnvelopeStage::Release,
                release_start_level: old(self).current_level,
                samples_elapsed: 0,
                ..*old(self)
            }),
            old(self).stage == EnvelopeStage::Idle ==> *final(self) == *old(self),
    {
        if !matches!(self.stage, EnvelopeStage::Idle) {
            self.release_start_level = self.current_level;
            self.stage = EnvelopeStage::Release;
            self.samples_elapsed = 0;
        }
    }

    /// Whether the envelope still sounds.
    pub fn is_active(&self) -> (r: bool)
        ensures
            r == (self.stage != EnvelopeStage::Idle),
    {
        !matches!(self.stage, EnvelopeStage::Idle)
    }

    /// Advance one sample and produce the current level. Stage times are
    /// Q16 seconds, the sustain level a Q24 fraction.
    pub fn process(&mut self, attack: i64, decay: i64, sustain: i64, release: i64) -> (level: i64)
        requires
            old(self).wf(),
            0 <= attack <= 0x1_0000_0000,
            0 <= decay <= 0x1_0000_0000,
            0 <= release <= 0x1_0000_0000,
            0 <= sustain <= Q_ONE,
        ensures
            final(self).wf(),
            *final(self) == spec_env_step(*old(self), attack as int, decay as int, sustain as int, release as int),
            level == final(self).current_level,
            0 <= level <= Q_ONE,
    {
        match self.stage {
            EnvelopeStage::Idle => {
                self.current_level = 0;
            },
            EnvelopeStage::Attack => {
                let dur: u64 = Self::stage_samples(attack, self.sample_rate);
                if self.samples_elapsed as u64 >= dur {
                    self.current_level = Q_ONE;
                    self.stage = EnvelopeStage::Decay;
                    self.samples_elapsed = 0;
                } else {
                    let p: i64 = Self::progress(self.samples_elapsed, dur);
                    let f: i64 = exp_decay5_q(p);
                    self.current_level = Q_ONE - f;
                }
            },
            EnvelopeStage::Decay => {
                let dur: u64 = Self::stage_samples(decay, self.sample_rate);
                if self.samples_elapsed as u64 >= dur {
                    self.current_level = sustain;
                    self.stage = EnvelopeStage::Sustain;
                    self.samples_elapsed = 0;
                } else {
                    let p: i64 = Self::progress(self.samples_elapsed, dur);
                    let f: i64 = exp_decay5_q(p);
                    proof {
                        crate::fixed::lemma_q_scale_bound(
                            Q_ONE - sustain as int,
                            f as int,
                            Q_ONE - sustain as int,
                        );
                    }
                    self.current_level = sustain + mul_div(Q_ONE - sustain, f, Q_ONE);
                }
            },
            EnvelopeStage::Sustain => {
                self.current_level = sustain;
            },
            EnvelopeStage::Release => {
                let dur: u64 = Self::stage_samples(release, self.sample_rate);
                if self.samples_elapsed as u64 >= dur {
                    self.current_level = 0;
                    self.stage = EnvelopeStage::Idle;
                    self.samples_elapsed = 0;
                } else {
                    let p: i64 = Self::progress(self.samples_elapsed, dur);
                    let f: i64 = exp_decay5_q(p);
                    proof {
                        crate::fixed::lemma_q_scale_bound(
                            self.release_start_level as int,
                            f as int,
                            self.release_start_level as int,
                        );
                    }
                    self.current_level = mul_div(self.release_start_level, f, Q_ONE);
                }
            },
        }
        if self.samples_elapsed < u32::MAX {
            self.samples_elapsed = self.samples_elapsed + 1;
        }
        self.current_level
    }

    /// Whole samples a stage lasts, at least one.
    fn stage_samples(secs: i64, sr: u32) -> (r: u64)
        requires
            0 <= secs <= 0x1_0000_0000,
            1 <= sr <= 1_000_000,
        ensures
            r == spec_stage_samples(secs as int, sr as int),
            1 <= r,
    {
        proof {
            vstd::arithmetic::mul::lemma_mul_upper_bound(
                secs as int,
                0x1_0000_0000,
                sr as int,
                1_000_000,
            );
            vstd::arithmetic::mul::lemma_mul_nonnegative(secs as int, sr as int);
        }
        let d: u64 = ((secs as u64) * (sr as u64)) / (HZ_ONE as u64);
        if d < 1 {
            1
        } else {
            d
        }
    }

    /// The fraction of a stage already elapsed, in Q24, always below one.
    fn progress(elapsed: u32, dur: u64) -> (r: i64)
        requires
            1 <= dur,
            elapsed < dur,
        ensures
            r == elapsed as int * (Q_ONE as int) / dur as int,
            0 <= r < Q_ONE,
    {
        proof {
            vstd::arithmetic::mul::lemma_mul_inequality(
                elapsed as int,
                dur as int - 1,
                Q_ONE as int,
            );
            assert((dur as int - 1) * (Q_ONE as int) <= dur as int * (Q_ONE as int) - Q_ONE)
                by (nonlinear_arith);
            vstd::arithmetic::mul::lemma_mul_nonnegative(elapsed as int, Q_ONE as int);
            lemma_div_below(elapsed as int * (Q_ONE as int), Q_ONE as int, dur as int);
        }
        (((elapsed as u64) * (Q_ONE as u64)) / dur) as i64
    }
}

} // verus!
