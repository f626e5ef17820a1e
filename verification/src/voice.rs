//! One polyphonic voice: three unison oscillator banks, a resonant filter
//! and an envelope, plus the identity of the note it plays.
//!
//! A voice is built once and reused forever: a note-on rewinds its
//! oscillator phases, clears its filter history and restarts its envelope.
//! The active flag tracks the envelope exactly: it falls when the envelope
//! reaches idle after a release, or immediately on a choke.

use vstd::prelude::*;
use crate::envelope::Envelope;
use crate::envelope::EnvelopeStage;
use crate::envelope::spec_env_step;
use crate::filter::BiquadFilter;
use crate::filter::OUT_HEADROOM_Q24;
use crate::filter::spec_filter_out;
use crate::filter::spec_filter_step;
use crate::filter::spec_set_coefficients;
use crate::fixed::FREQ_CAP_Q16;
use crate::fixed::HZ_ONE;
use crate::fixed::Q_ONE;
use crate::fixed::abs_val;
use crate::fixed::exp2_q;
use crate::fixed::freq_scale;
use crate::fixed::lemma_div_below;
use crate::fixed::lemma_q_scale_bound;
use crate::fixed::lemma_quotient_le;
use crate::fixed::lemma_unit_scale_bound;
use crate::fixed::mul_div;
use crate::fixed::spec_clamp;
use crate::fixed::spec_exp2;
use crate::fixed::spec_freq_scale;
use crate::fixed::spec_mul_div;
use crate::fixed::tdiv;
use crate::osc::MAX_UNISON;
use crate::osc::OscillatorVoice;
use crate::osc::UnisonOscillator;
use crate::osc::spec_bank_out;
use crate::osc::spec_bank_voices_after;
use crate::osc::spec_detune_offset;
use crate::osc::spec_with_offsets;
use crate::params::OscSettings;
use crate::params::SineParams;
use crate::params::spec_osc_valid;
use crate::params::spec_params_valid;

verus! {

/// Concert A, the reference pitch of the equal-tempered scale.
pub const A4_FREQ_Q16: i64 = 440 * HZ_ONE;

/// The equal-tempered frequency of a note number: concert A scaled by two
/// to the distance from note 69 in twelfths.
pub open spec fn spec_note_frequency(note: int) -> int {
    spec_freq_scale(A4_FREQ_Q16 as int, spec_exp2(tdiv((note - 69) * (Q_ONE as int), 12)))
}

/// The frequency a note number sounds at; note 69 is exactly concert A.
pub fn note_frequency(note: u8) -> (r: i64)
    ensures
        r == spec_note_frequency(note as int),
        0 <= r <= FREQ_CAP_Q16,
        note == 69 ==> r == A4_FREQ_Q16,
{
    let semis: i64 = note as i64 - 69;
    let e: i64 = mul_div(semis, Q_ONE, 12);
    proof {
        vstd::arithmetic::mul::lemma_mul_nonnegative(abs_val(semis as int), Q_ONE as int);
        vstd::arithmetic::mul::lemma_mul_upper_bound(
            abs_val(semis as int),
            186,
            Q_ONE as int,
            Q_ONE as int,
        );
        lemma_div_below(abs_val(semis as int) * (Q_ONE as int), 16 * (Q_ONE as int), 12);
        if note == 69 {
            vstd::arithmetic::div_mod::lemma_fundamental_div_mod_converse_div(0, 12, 0, 0);
        }
    }
    let f: i64 = exp2_q(e);
    proof {
        if note == 69 {
            vstd::arithmetic::div_mod::lemma_fundamental_div_mod_converse_div(
                (A4_FREQ_Q16 as int) * (Q_ONE as int),
                Q_ONE as int,
                A4_FREQ_Q16 as int,
                0,
            );
        }
    }
    freq_scale(A4_FREQ_Q16, f)
}

/// The frequency an oscillator section makes a playing note sound at: the
/// note's base frequency through the octave shift, the pitch ratio against
/// concert A, and the fine detune, each saturating at the frequency cap.
pub open spec fn spec_effective_freq(base: int, o: OscSettings) -> int {
    let f1 = spec_freq_scale(base, spec_exp2(o.octave as int * (Q_ONE as int)));
    let f2 = spec_freq_scale(f1, spec_mul_div(o.frequency as int, Q_ONE as int, A4_FREQ_Q16 as int));
    spec_freq_scale(f2, spec_exp2(spec_mul_div(o.detune_cents as int, 256, 1200)))
}

/// A bank reset to phase zero with everything else kept.
pub open spec fn spec_bank_rewound(o: UnisonOscillator, v: UnisonOscillator) -> bool {
    &&& v.num_voices == o.num_voices
    &&& v.voices@.len() == o.voices@.len()
    &&& forall|i: int| 0 <= i < o.voices@.len() ==> (#[trigger] v.voices@[i]).phase == 0
    &&& forall|i: int|
        0 <= i < o.voices@.len() ==> (#[trigger] v.voices@[i]).detune_offset
            == o.voices@[i].detune_offset
}

/// What a note-on leaves of a voice: the new identity, phases rewound,
/// filter history cleared, envelope restarted into attack.
pub open spec fn spec_note_on_applied(o: Voice, v: Voice, note: int, vel: int) -> bool {
    &&& v.active == true
    &&& v.note as int == note
    &&& v.velocity as int == vel
    &&& v.base_frequency as int == spec_note_frequency(note)
    &&& spec_bank_rewound(o.osc1, v.osc1)
    &&& spec_bank_rewound(o.osc2, v.osc2)
    &&& spec_bank_rewound(o.osc3, v.osc3)
    &&& v.filter == (BiquadFilter { x1: 0, x2: 0, y1: 0, y2: 0, ..o.filter })
    &&& v.envelope == (Envelope { stage: EnvelopeStage::Attack, samples_elapsed: 0, ..o.envelope })
}

/// A bank as construction leaves it: one live voice, phases at zero, the
/// spread laid out for the full capacity.
pub open spec fn spec_fresh_bank(b: UnisonOscillator) -> bool {
    &&& b.num_voices == 1
    &&& b.voices@.len() == MAX_UNISON as int
    &&& forall|i: int| 0 <= i < MAX_UNISON as int ==> (#[trigger] b.voices@[i]).phase == 0
    &&& forall|i: int|
        0 <= i < MAX_UNISON as int ==> (#[trigger] b.voices@[i]).detune_offset
            == spec_detune_offset(i, MAX_UNISON as int)
}

/// A voice as construction leaves it: silent, at rest, tuned to concert A,
/// with a transparent filter and an idle envelope.
pub open spec fn spec_fresh_voice(v: Voice, sample_rate: int) -> bool {
    &&& !v.active
    &&& v.note == 0
    &&& v.velocity == 0
    &&& v.base_frequency == A4_FREQ_Q16
    &&& spec_fresh_bank(v.osc1)
    &&& spec_fresh_bank(v.osc2)
    &&& spec_fresh_bank(v.osc3)
    &&& v.filter == (BiquadFilter {
        b0: Q_ONE,
        b1: 0,
        b2: 0,
        a1: 0,
        a2: 0,
        x1: 0,
        x2: 0,
        y1: 0,
        y2: 0,
        sample_rate: sample_rate as u32,
    })
    &&& v.envelope == (Envelope {
        stage: EnvelopeStage::Idle,
        current_level: 0,
        sample_rate: sample_rate as u32,
        samples_elapsed: 0,
        release_start_level: 0,
    })
}

/// One note's complete signal chain.
pub struct Voice {
    /// Whether the voice currently sounds; mirrors the envelope exactly.
    pub active: bool,
    /// The note number being played.
    pub note: u8,
    /// The note's velocity, Q24 in `[0, 1]`.
    pub velocity: i64,
    /// The note's equal-tempered frequency, Q16 hertz.
    pub base_frequency: i64,
    /// The three oscillator sections.
    pub osc1: UnisonOscillator,
    pub osc2: UnisonOscillator,
    pub osc3: UnisonOscillator,
    /// The voice's filter.
    pub filter: BiquadFilter,
    /// The voice's envelope.
    pub envelope: Envelope,
}

/// The number of live voices an oscillator section asks of a bank.
pub open spec fn spec_bank_count(o: OscSettings, len: int) -> int {
    spec_clamp(o.unison_voices as int, 1, len)
}

/// The sample one oscillator section contributes, after its gain: the bank
/// tick over the section's live voice count and spread.
pub open spec fn spec_section_out(voices: Seq<OscillatorVoice>, base: int, o: OscSettings) -> int {
    let n = spec_bank_count(o, voices.len() as int);
    let vs = spec_with_offsets(voices, n);
    spec_mul_div(
        spec_bank_out(
            vs,
            n,
            o.waveform,
            o.phase_offset as int * 256,
            o.unison_blend as int,
            o.unison_volume as int,
        ),
        o.gain as int,
        Q_ONE as int,
    )
}

/// A bank's voices after one tick for a section: spread laid out for the
/// section's count, then each live voice advanced at the effective
/// frequency.
pub open spec fn spec_section_voices_after(
    voices: Seq<OscillatorVoice>,
    base: int,
    o: OscSettings,
    sr: int,
) -> Seq<OscillatorVoice> {
    let n = spec_bank_count(o, voices.len() as int);
    spec_bank_voices_after(
        spec_with_offsets(voices, n),
        n,
        spec_effective_freq(base, o),
        o.unison_detune as int,
        sr,
    )
}

/// The three sections' samples summed: what the voice's filter is fed.
pub open spec fn spec_voice_mix(v: Voice, p: SineParams) -> int {
    spec_section_out(v.osc1.voices@, v.base_frequency as int, p.osc1) + spec_section_out(
        v.osc2.voices@,
        v.base_frequency as int,
        p.osc2,
    ) + spec_section_out(v.osc3.voices@, v.base_frequency as int, p.osc3)
}

/// The sample one voice contributes to the block: silence when inactive,
/// else the mixed oscillators through the freshly tuned filter, scaled by
/// the envelope level and the note's velocity.
#[verifier::opaque]
pub open spec fn spec_voice_out(v: Voice, p: SineParams) -> int {
    if !v.active {
        0
    } else {
        let fo = spec_filter_out(
            spec_set_coefficients(
                v.filter,
                p.filter_mode,
                p.filter_cutoff as int,
                p.filter_resonance as int,
            ),
            spec_voice_mix(v, p),
            p.filter_drive as int,
        );
        let level = spec_env_step(
            v.envelope,
            p.attack as int,
            p.decay as int,
            p.sustain as int,
            p.release as int,
        ).current_level;
        spec_mul_div(spec_mul_div(fo, level as int, Q_ONE as int), v.velocity as int, Q_ONE as int)
    }
}

/// How one render tick changes a voice: an inactive voice holds still; an
/// active one advances its banks, retunes and steps its filter, steps its
/// envelope, and falls inactive the moment the envelope goes idle.
#[verifier::opaque]
pub open spec fn spec_voice_ticked(o: Voice, v: Voice, p: SineParams) -> bool {
    if !o.active {
        v == o
    } else {
        let e2 = spec_env_step(
            o.envelope,
            p.attack as int,
            p.decay as int,
            p.sustain as int,
            p.release as int,
        );
        &&& v.note == o.note
        &&& v.velocity == o.velocity
        &&& v.base_frequency == o.base_frequency
        &&& v.osc1.num_voices as int == spec_bank_count(p.osc1, o.osc1.voices@.len() as int)
        &&& v.osc2.num_voices as int == spec_bank_count(p.osc2, o.osc2.voices@.len() as int)
        &&& v.osc3.num_voices as int == spec_bank_count(p.osc3, o.osc3.voices@.len() as int)
        &&& v.osc1.voices@ == spec_section_voices_after(
            o.osc1.voices@,
            o.base_frequency as int,
            p.osc1,
            o.envelope.sample_rate as int,
        )
        &&& v.osc2.voices@ == spec_section_voices_after(
            o.osc2.voices@,
            o.base_frequency as int,
            p.osc2,
            o.envelope.sample_rate as int,
        )
        &&& v.osc3.voices@ == spec_section_voices_after(
            o.osc3.voices@,
            o.base_frequency as int,
            p.osc3,
            o.envelope.sample_rate as int,
        )
        &&& v.filter == spec_filter_step(
            spec_set_coefficients(
                o.filter,
                p.filter_mode,
                p.filter_cutoff as int,
                p.filter_resonance as int,
            ),
            spec_voice_mix(o, p),
            p.filter_drive as int,
        )
        &&& v.envelope == e2
        &&& v.active == (e2.stage != EnvelopeStage::Idle)
    }
}

impl Voice {
    /// Structural invariant: every component well formed, identity scalars
    /// in range, the active flag mirroring the envelope, and one sample
    /// rate across the voice.
    pub open spec fn wf(&self) -> bool {
        &&& self.osc1.wf()
        &&& self.osc2.wf()
        &&& self.osc3.wf()
        &&& self.filter.wf()
        &&& self.envelope.wf()
        &&& 0 <= self.velocity <= Q_ONE
        &&& 0 <= self.base_frequency <= FREQ_CAP_Q16
        &&& self.active == (self.envelope.stage != EnvelopeStage::Idle)
        &&& self.filter.sample_rate == self.envelope.sample_rate
    }

    /// A fresh, silent voice at a sample rate.
    pub fn new(sample_rate: u32) -> (r: Self)
        requires
            41 <= sample_rate <= 1_000_000,
        ensures
            r.wf(),
            spec_fresh_voice(r, sample_rate as int),
    {
        Voice {
            active: false,
            note: 0,
            velocity: 0,
            base_frequency: A4_FREQ_Q16,
            osc1: UnisonOscillator::new(MAX_UNISON),
            osc2: UnisonOscillator::new(MAX_UNISON),
            osc3: UnisonOscillator::new(MAX_UNISON),
            filter: BiquadFilter::new(sample_rate),
            envelope: Envelope::new(sample_rate),
        }
    }

    /// Start playing a note: store its identity, derive its frequency,
    /// rewind the oscillators, clear the filter and restart the envelope.
    /// Note 69 lands on exactly concert A.
    pub fn note_on(&mut self, note: u8, velocity: i64)
        requires
            old(self).wf(),
            0 <= velocity <= Q_ONE,
        ensures
            final(self).wf(),
            spec_note_on_applied(*old(self), *final(self), note as int, velocity as int),
            note == 69 ==> final(self).base_frequency == A4_FREQ_Q16,
    {
        self.active = true;
        self.note = note;
        self.velocity = velocity;
        self.base_frequency = note_frequency(note);
        self.osc1.reset();
        self.osc2.reset();
        self.osc3.reset();
        self.filter.reset();
        self.envelope.note_on();
    }

    /// Release the note: the envelope starts its release, the voice keeps
    /// sounding until the envelope reaches idle on its own.
    pub fn note_off(&mut self)
        requires
            old(self).wf(),
        ensures
            final(self).wf(),
            *final(self) == (Voice { envelope: final(self).envelope, ..*old(self) }),
            old(self).envelope.stage != EnvelopeStage::Idle ==> final(self).envelope == (Envelope {
                stage: EnvelopeStage::Release,
                release_start_level: old(self).envelope.current_level,
                samples_elapsed: 0,
                ..old(self).envelope
            }),
            old(self).envelope.stage == EnvelopeStage::Idle ==> final(self).envelope == old(
                self,
            ).envelope,
    {
        self.envelope.note_off();
    }

    /// Whether the voice still sounds.
    pub fn is_active(&self) -> (r: bool)
        requires
            self.wf(),
        ensures
            r == self.active,
            r == (self.envelope.stage != EnvelopeStage::Idle),
    {
        self.envelope.is_active()
    }

    /// Hard-mute the voice at once, bypassing the envelope's release.
    pub fn choke(&mut self)
        requires
            old(self).wf(),
        ensures
            final(self).wf(),
            !final(self).active,
            *final(self) == (Voice {
                active: false,
                envelope: Envelope {
                    stage: EnvelopeStage::Idle,
                    current_level: 0,
                    samples_elapsed: 0,
                    ..old(self).envelope
                },
                ..*old(self)
            }),
    {
        self.active = false;
        self.envelope.stage = EnvelopeStage::Idle;
        self.envelope.current_level = 0;
        self.envelope.samples_elapsed = 0;
    }

    /// Change the voice's sample rate, clearing the filter history.
    pub fn set_sample_rate(&mut self, sample_rate: u32)
        requires
            old(self).wf(),
            41 <= sample_rate <= 1_000_000,
        ensures
            final(self).wf(),
            *final(self) == (Voice {
                filter: BiquadFilter {
                    sample_rate,
                    x1: 0,
                    x2: 0,
                    y1: 0,
                    y2: 0,
                    ..old(self).filter
                },
                envelope: Envelope { sample_rate, ..old(self).envelope },
                ..*old(self)
            }),
    {
        self.filter.set_sample_rate(sample_rate);
        self.envelope.set_sample_rate(sample_rate);
    }

    /// The frequency a section plays the voice's note at.
    fn effective_freq(base: i64, o: &OscSettings) -> (r: i64)
        requires
            0 <= base <= FREQ_CAP_Q16,
            spec_osc_valid(*o),
        ensures
            r == spec_effective_freq(base as int, *o),
            0 <= r <= FREQ_CAP_Q16,
    {
        let oct: i64 = exp2_q(o.octave * Q_ONE);
        let f1: i64 = freq_scale(base, oct);
        proof {
            vstd::arithmetic::mul::lemma_mul_nonnegative(o.frequency as int, Q_ONE as int);
            lemma_quotient_le(o.frequency as int * (Q_ONE as int), A4_FREQ_Q16 as int);
            vstd::arithmetic::mul::lemma_mul_upper_bound(
                o.frequency as int,
                0x8000_0000,
                Q_ONE as int,
                Q_ONE as int,
            );
        }
        let ratio: i64 = mul_div(o.frequency, Q_ONE, A4_FREQ_Q16);
        let f2: i64 = freq_scale(f1, ratio);
        proof {
            vstd::arithmetic::mul::lemma_mul_nonnegative(abs_val(o.detune_cents as int), 256);
            vstd::arithmetic::mul::lemma_mul_upper_bound(
                abs_val(o.detune_cents as int),
                crate::params::DETUNE_MAX_Q16 as int,
                256,
                256,
            );
            lemma_div_below(abs_val(o.detune_cents as int) * 256, Q_ONE as int, 1200);
        }
        let e: i64 = mul_div(o.detune_cents, 256, 1200);
        let det: i64 = exp2_q(e);
        freq_scale(f2, det)
    }

    /// One render tick: advance the three banks at the live parameters,
    /// feed their mix through the retuned filter, scale by the stepped
    /// envelope and the velocity. The voice falls inactive the moment the
    /// envelope goes idle; an inactive voice holds perfectly still and
    /// contributes silence.
    pub fn render_tick(&mut self, p: &SineParams) -> (out: i64)
        requires
            old(self).wf(),
            spec_params_valid(*p),
        ensures
            final(self).wf(),
            spec_voice_ticked(*old(self), *final(self), *p),
            out == spec_voice_out(*old(self), *p),
            abs_val(out as int) <= OUT_HEADROOM_Q24,
            final(self).envelope.sample_rate == old(self).envelope.sample_rate,
    {
        proof {
            reveal(spec_voice_out);
            reveal(spec_voice_ticked);
        }
        if !self.is_active() {
            return 0;
        }
        let sr: u32 = self.envelope.sample_rate;
        self.osc1.set_num_voices(p.osc1.unison_voices as usize);
        self.osc2.set_num_voices(p.osc2.unison_voices as usize);
        self.osc3.set_num_voices(p.osc3.unison_voices as usize);
        let f1: i64 = Self::effective_freq(self.base_frequency, &p.osc1);
        let o1: i64 = self.osc1.process(
            p.osc1.waveform,
            f1,
            p.osc1.unison_detune,
            (p.osc1.phase_offset as u64) * 256,
            p.osc1.unison_blend,
            p.osc1.unison_volume,
            sr,
        );
        let f2: i64 = Self::effective_freq(self.base_frequency, &p.osc2);
        let o2: i64 = self.osc2.process(
            p.osc2.waveform,
            f2,
            p.osc2.unison_detune,
            (p.osc2.phase_offset as u64) * 256,
            p.osc2.unison_blend,
            p.osc2.unison_volume,
            sr,
        );
        let f3: i64 = Self::effective_freq(self.base_frequency, &p.osc3);
        let o3: i64 = self.osc3.process(
            p.osc3.waveform,
            f3,
            p.osc3.unison_detune,
            (p.osc3.phase_offset as u64) * 256,
            p.osc3.unison_blend,
            p.osc3.unison_volume,
            sr,
        );
        proof {
            lemma_unit_scale_bound(o1 as int, p.osc1.gain as int);
            lemma_unit_scale_bound(o2 as int, p.osc2.gain as int);
            lemma_unit_scale_bound(o3 as int, p.osc3.gain as int);
        }
        let g1: i64 = mul_div(o1, p.osc1.gain, Q_ONE);
        let g2: i64 = mul_div(o2, p.osc2.gain, Q_ONE);
        let g3: i64 = mul_div(o3, p.osc3.gain, Q_ONE);
        let mix: i64 = g1 + g2 + g3;
        self.filter.set_coefficients(p.filter_mode, p.filter_cutoff, p.filter_resonance);
        let fo: i64 = self.filter.process(mix, p.filter_drive);
        let level: i64 = self.envelope.process(p.attack, p.decay, p.sustain, p.release);
        proof {
            lemma_q_scale_bound(fo as int, level as int, OUT_HEADROOM_Q24 as int);
        }
        let fl: i64 = mul_div(fo, level, Q_ONE);
        proof {
            lemma_q_scale_bound(fl as int, self.velocity as int, OUT_HEADROOM_Q24 as int);
        }
        let vs: i64 = mul_div(fl, self.velocity, Q_ONE);
        if !self.envelope.is_active() {
            self.active = false;
        }
        vs
    }
}

} // verus!
