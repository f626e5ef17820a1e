//! Oscillators: the stateless waveform generator and the unison bank.
//!
//! The generator maps a waveform shape and a phase to a sample; it never
//! leaves `[-Q_ONE, Q_ONE]`. The unison bank owns up to eight phase
//! accumulators; with a single active voice it reduces exactly to the plain
//! generator, with more it blends a center voice against the average of the
//! detuned stack.

use vstd::prelude::*;
use crate::fixed::CYCLE;
use crate::fixed::FREQ_CAP_Q16;
use crate::fixed::HALF_CYCLE;
use crate::fixed::HZ_ONE;
use crate::fixed::Q_ONE;
use crate::fixed::abs_val;
use crate::fixed::exp2_q;
use crate::fixed::lemma_div_below;
use crate::fixed::lemma_unit_scale_bound;
use crate::fixed::freq_scale;
use crate::fixed::mul_div;
use crate::fixed::phase_incr;
use crate::fixed::sine_q;
use crate::fixed::spec_clamp;
use crate::fixed::spec_exp2;
use crate::fixed::spec_freq_scale;
use crate::fixed::spec_mul_div;
use crate::fixed::spec_phase_incr;
use crate::fixed::spec_sine;
use crate::fixed::tdiv;

verus! {

/// The unison bank holds at most this many stacked voices.
pub const MAX_UNISON: usize = 8;

/// The waveform shapes an oscillator can produce.
#[derive(Clone, Copy, PartialEq, Eq, Structural, Debug)]
pub enum Waveform {
    Sine,
    Square,
    Triangle,
    Sawtooth,
}

impl Default for Waveform {
    fn default() -> (r: Self)
        ensures
            r == Waveform::Sine,
    {
        Waveform::Sine
    }
}

/// The sample a waveform produces at a phase (Q32 turns, any value; one
/// period per cycle), in Q24:
/// - sine: the shaped sine;
/// - square: one on the first half cycle, minus one on the second;
/// - triangle: continuous ramp, peak at the quarter, trough at three
///   quarters;
/// - sawtooth: ramp from minus one up to one, dropping at the wrap.
pub open spec fn spec_generate(w: Waveform, p: int) -> int {
    let pm = p % (CYCLE as int);
    match w {
        Waveform::Sine => spec_sine(p),
        Waveform::Square => if pm < HALF_CYCLE {
            Q_ONE as int
        } else {
            -(Q_ONE as int)
        },
        Waveform::Triangle => {
            let v = pm / 64;
            if v < Q_ONE {
                v
            } else if v < 3 * Q_ONE {
                2 * Q_ONE - v
            } else {
                v - 4 * Q_ONE
            }
        },
        Waveform::Sawtooth => pm / 128 - Q_ONE,
    }
}

/// Evaluate a waveform at a phase. The phase is taken modulo one cycle and
/// the result is always within one.
pub fn generate(waveform: Waveform, phase: u64) -> (r: i64)
    ensures
        r == spec_generate(waveform, phase as int),
        -Q_ONE <= r <= Q_ONE,
{
    let pm: u64 = phase % CYCLE;
    match waveform {
        Waveform::Sine => sine_q(phase),
        Waveform::Square => {
            if pm < HALF_CYCLE {
                Q_ONE
            } else {
                -Q_ONE
            }
        },
        Waveform::Triangle => {
            proof {
                lemma_div_below(pm as int, 4 * (Q_ONE as int), 64);
            }
            let v: i64 = (pm / 64) as i64;
            if v < Q_ONE {
                v
            } else if v < 3 * Q_ONE {
                2 * Q_ONE - v
            } else {
                v - 4 * Q_ONE
            }
        },
        Waveform::Sawtooth => {
            proof {
                lemma_div_below(pm as int, 2 * (Q_ONE as int), 128);
            }
            (pm / 128) as i64 - Q_ONE
        },
    }
}

/// One voice of the unison stack: a phase accumulator and the voice's fixed
/// position in the detune spread (zero for the center voice).
#[derive(Clone, Copy)]
pub struct OscillatorVoice {
    /// Current phase in Q32 turns, always below one cycle.
    pub phase: u64,
    /// Spread position in Q24, zero for the center voice.
    pub detune_offset: i64,
}

/// Spread position of voice `i` out of `n`: the voices sit symmetrically
/// across `[-1, 1]`, and a lone voice sits exactly at zero.
pub open spec fn spec_detune_offset(i: int, n: int) -> int
    recommends
        1 <= n,
{
    if n == 1 {
        0
    } else {
        tdiv((2 * i - (n - 1)) * (Q_ONE as int), n - 1)
    }
}

/// The spread positions are symmetric around zero: each live voice's
/// position is the negation of its mirror voice's, and a lone voice sits
/// exactly at zero.
pub proof fn lemma_detune_offsets_symmetric(i: int, n: int)
    requires
        1 <= n,
        0 <= i < n,
    ensures
        spec_detune_offset(i, n) == -spec_detune_offset(n - 1 - i, n),
        n == 1 ==> spec_detune_offset(i, n) == 0,
{
    if n > 1 {
        vstd::arithmetic::mul::lemma_mul_unary_negation(2 * i - (n - 1), Q_ONE as int);
        assert((2 * (n - 1 - i) - (n - 1)) == -(2 * i - (n - 1)));
    }
}

/// The detune exponent of a voice, in Q24 octaves: its spread position times
/// the detune width in cents, over the cents in an octave.
pub open spec fn spec_unison_exponent(offset: int, cents: int) -> int {
    tdiv(offset * cents, 1200 * (HZ_ONE as int))
}

/// The frequency ratio of a detuned voice.
pub open spec fn spec_unison_factor(offset: int, cents: int) -> int {
    spec_exp2(spec_unison_exponent(offset, cents))
}

/// Where a stacked voice's phase lands after one sample at its detuned
/// frequency.
pub open spec fn spec_advanced_phase(v: OscillatorVoice, base_freq: int, cents: int, sr: int) -> int {
    let freq = spec_freq_scale(base_freq, spec_unison_factor(v.detune_offset as int, cents));
    (v.phase + spec_phase_incr(freq, sr)) % (CYCLE as int)
}

/// The sample a stacked voice contributes, at its phase plus the bank-wide
/// phase offset.
pub open spec fn spec_voice_sample(v: OscillatorVoice, w: Waveform, phase_offset: int) -> int {
    spec_generate(w, v.phase + phase_offset)
}

/// Sum of the samples of the first `n` stacked voices.
pub open spec fn spec_unison_sum(
    voices: Seq<OscillatorVoice>,
    w: Waveform,
    phase_offset: int,
    n: int,
) -> int
    decreases n,
{
    if n <= 0 {
        0
    } else {
        spec_unison_sum(voices, w, phase_offset, n - 1) + spec_voice_sample(
            voices[n - 1],
            w,
            phase_offset,
        )
    }
}

/// The bank's voices with the spread positions laid out for `n` live
/// voices, phases untouched.
pub open spec fn spec_with_offsets(voices: Seq<OscillatorVoice>, n: int) -> Seq<OscillatorVoice> {
    Seq::new(
        voices.len(),
        |i: int|
            OscillatorVoice {
                phase: voices[i].phase,
                detune_offset: spec_detune_offset(i, n) as i64,
            },
    )
}

/// The bank's voices after one tick with `n` live voices: a lone voice
/// advances at the plain frequency, a stack advances each live voice at its
/// detuned frequency; idle tail voices hold still.
pub open spec fn spec_bank_voices_after(
    voices: Seq<OscillatorVoice>,
    n: int,
    base_freq: int,
    cents: int,
    sr: int,
) -> Seq<OscillatorVoice> {
    if n == 1 {
        voices.update(
            0,
            OscillatorVoice {
                phase: ((voices[0].phase + spec_phase_incr(base_freq, sr)) % (CYCLE as int)) as u64,
                detune_offset: voices[0].detune_offset,
            },
        )
    } else {
        Seq::new(
            voices.len(),
            |i: int|
                if i < n {
                    OscillatorVoice {
                        phase: spec_advanced_phase(voices[i], base_freq, cents, sr) as u64,
                        detune_offset: voices[i].detune_offset,
                    }
                } else {
                    voices[i]
                },
        )
    }
}

/// The sample one tick produces with `n` live voices: a lone voice is the
/// plain generator scaled by the volume; a stack crossfades the center
/// voice against the stack average before the volume scaling.
pub open spec fn spec_bank_out(
    voices: Seq<OscillatorVoice>,
    n: int,
    w: Waveform,
    phase_offset: int,
    blend: int,
    volume: int,
) -> int {
    if n == 1 {
        spec_mul_div(spec_voice_sample(voices[0], w, phase_offset), volume, Q_ONE as int)
    } else {
        spec_mul_div(
            spec_mul_div(
                spec_voice_sample(voices[0], w, phase_offset),
                Q_ONE - blend,
                Q_ONE as int,
            ) + spec_mul_div(
                tdiv(spec_unison_sum(voices, w, phase_offset, n), n),
                blend,
                Q_ONE as int,
            ),
            volume,
            Q_ONE as int,
        )
    }
}

/// A bank of up to eight phase accumulators with a live voice count.
pub struct UnisonOscillator {
    /// The stacked voices; the capacity never changes after construction.
    pub voices: Vec<OscillatorVoice>,
    /// How many of them currently sound, always in `[1, capacity]`.
    pub num_voices: usize,
}

impl UnisonOscillator {
    /// The bank's structural invariant: capacity within bounds, the live
    /// count within the capacity, every phase below one cycle and every
    /// spread position bounded.
    pub open spec fn wf(&self) -> bool {
        &&& 1 <= self.voices@.len() <= MAX_UNISON
        &&& 1 <= self.num_voices <= self.voices@.len()
        &&& forall|i: int|
            0 <= i < self.voices@.len() ==> (#[trigger] self.voices@[i]).phase < CYCLE
        &&& forall|i: int|
            0 <= i < self.voices@.len() ==> abs_val(
                (#[trigger] self.voices@[i]).detune_offset as int,
            ) <= 16 * Q_ONE
    }

    /// The spread position of voice `i` when `n` voices sound.
    fn detune_offset_for(i: usize, n: usize) -> (r: i64)
        requires
            1 <= n <= MAX_UNISON,
            i < MAX_UNISON,
        ensures
            r == spec_detune_offset(i as int, n as int),
            abs_val(r as int) <= 16 * Q_ONE,
            i < n ==> abs_val(r as int) <= Q_ONE,
    {
        if n == 1 {
            0
        } else {
            let num: i64 = 2 * (i as i64) - ((n - 1) as i64);
            let d: i64 = (n - 1) as i64;
            proof {
                vstd::arithmetic::mul::lemma_mul_upper_bound(
                    abs_val(num as int),
                    16,
                    Q_ONE as int,
                    Q_ONE as int,
                );
                vstd::arithmetic::mul::lemma_mul_nonnegative(abs_val(num as int), Q_ONE as int);
                lemma_div_below(abs_val(num as int) * (Q_ONE as int), 16 * (Q_ONE as int) + 1, d as int);
                if i < n {
                    vstd::arithmetic::mul::lemma_mul_inequality(
                        abs_val(num as int),
                        d as int,
                        Q_ONE as int,
                    );
                    vstd::arithmetic::div_mod::lemma_div_is_ordered(
                        abs_val(num as int) * (Q_ONE as int),
                        d as int * (Q_ONE as int),
                        d as int,
                    );
                    assert(d as int * (Q_ONE as int) == (Q_ONE as int) * (d as int) + 0)
                        by (nonlinear_arith);
                    vstd::arithmetic::div_mod::lemma_fundamental_div_mod_converse_div(
                        d as int * (Q_ONE as int),
                        d as int,
                        Q_ONE as int,
                        0,
                    );
                }
            }
            mul_div(num, Q_ONE, d)
        }
    }

    /// A fresh bank: every phase at zero, spread positions laid out for the
    /// full capacity, one voice sounding.
    pub fn new(max_voices: usize) -> (r: Self)
        requires
            1 <= max_voices <= MAX_UNISON,
        ensures
            r.wf(),
            r.num_voices == 1,
            r.voices@.len() == max_voices as int,
            forall|i: int| 0 <= i < max_voices as int ==> (#[trigger] r.voices@[i]).phase == 0,
            forall|i: int|
                0 <= i < max_voices as int ==> (#[trigger] r.voices@[i]).detune_offset
                    == spec_detune_offset(i, max_voices as int),
    {
        let mut voices: Vec<OscillatorVoice> = Vec::new();
        let mut i: usize = 0;
        while i < max_voices
            invariant
                1 <= max_voices <= MAX_UNISON,
                i <= max_voices,
                voices@.len() == i as int,
                forall|j: int| 0 <= j < i as int ==> (#[trigger] voices@[j]).phase == 0,
                forall|j: int|
                    0 <= j < i as int ==> (#[trigger] voices@[j]).detune_offset
                        == spec_detune_offset(j, max_voices as int),
                forall|j: int|
                    0 <= j < i as int ==> abs_val((#[trigger] voices@[j]).detune_offset as int)
                        <= 16 * Q_ONE,
            decreases max_voices - i,
        {
            let off: i64 = Self::detune_offset_for(i, max_voices);
            voices.push(OscillatorVoice { phase: 0, detune_offset: off });
            i = i + 1;
        }
        UnisonOscillator { voices, num_voices: 1 }
    }

    /// Change how many voices sound: the count clamps into the capacity and
    /// every spread position is recomputed; no phase is touched, so the
    /// change cannot click.
    pub fn set_num_voices(&mut self, num_voices: usize)
        requires
            old(self).wf(),
        ensures
            final(self).wf(),
            final(self).voices@.len() == old(self).voices@.len(),
            final(self).num_voices as int == spec_clamp(
                num_voices as int,
                1,
                old(self).voices@.len() as int,
            ),
            forall|i: int|
                0 <= i < old(self).voices@.len() ==> (#[trigger] final(self).voices@[i]).phase
                    == old(self).voices@[i].phase,
            forall|i: int|
                0 <= i < old(self).voices@.len() ==> (#[trigger] final(self).voices@[i]).detune_offset
                    == spec_detune_offset(i, final(self).num_voices as int),
            final(self).voices@ == spec_with_offsets(
                old(self).voices@,
                final(self).num_voices as int,
            ),
    {
        let len: usize = self.voices.len();
        let n: usize = if num_voices < 1 {
            1
        } else if num_voices > len {
            len
        } else {
            num_voices
        };
        self.num_voices = n;
        let mut i: usize = 0;
        while i < len
            invariant
                old(self).wf(),
                len == self.voices@.len(),
                len == old(self).voices@.len(),
                1 <= n <= len <= MAX_UNISON,
                self.num_voices == n,
                i <= len,
                forall|j: int|
                    i as int <= j < len as int ==> (#[trigger] self.voices@[j])
                        == old(self).voices@[j],
                forall|j: int|
                    0 <= j < i as int ==> (#[trigger] self.voices@[j]).phase
                        == old(self).voices@[j].phase,
                forall|j: int|
                    0 <= j < i as int ==> (#[trigger] self.voices@[j]).detune_offset
                        == spec_detune_offset(j, n as int),
                forall|j: int|
                    0 <= j < i as int ==> abs_val((#[trigger] self.voices@[j]).detune_offset as int)
                        <= 16 * Q_ONE,
            decreases len - i,
        {
            let ph: u64 = self.voices[i].phase;
            let off: i64 = Self::detune_offset_for(i, n);
            self.voices[i] = OscillatorVoice { phase: ph, detune_offset: off };
            i = i + 1;
        }
        proof {
            assert(self.voices@ =~= spec_with_offsets(old(self).voices@, n as int));
        }
    }

    /// Produce one sample and advance the bank by one tick.
    ///
    /// With a single live voice the bank is exactly the plain generator: the
    /// sample is the waveform at the center phase plus the phase offset,
    /// scaled by the volume, with no detuning applied. With more voices,
    /// each advances at its own detuned frequency and the output crossfades
    /// the center voice against the average of the stack before the volume
    /// scaling.
    #[verifier::loop_isolation(false)]
    pub fn process(
        &mut self,
        waveform: Waveform,
        base_freq: i64,
        detune_cents: i64,
        phase_offset: u64,
        blend: i64,
        volume: i64,
        sample_rate: u32,
    ) -> (out: i64)
        requires
            old(self).wf(),
            0 <= base_freq <= FREQ_CAP_Q16,
            0 <= detune_cents <= 50 * HZ_ONE,
            phase_offset <= CYCLE,
            0 <= blend <= Q_ONE,
            0 <= volume <= Q_ONE,
            1 <= sample_rate <= 1_000_000,
        ensures
            final(self).wf(),
            final(self).num_voices == old(self).num_voices,
            final(self).voices@.len() == old(self).voices@.len(),
            forall|i: int|
                0 <= i < old(self).voices@.len() ==> (#[trigger] final(self).voices@[i]).detune_offset
                    == old(self).voices@[i].detune_offset,
            forall|i: int|
                old(self).num_voices as int <= i < old(self).voices@.len()
                    ==> (#[trigger] final(self).voices@[i]).phase == old(self).voices@[i].phase,
            -Q_ONE <= out <= Q_ONE,
            abs_val(out as int) <= volume as int,
            old(self).num_voices == 1 ==> out == spec_mul_div(
                spec_voice_sample(old(self).voices@[0], waveform, phase_offset as int),
                volume as int,
                Q_ONE as int,
            ),
            old(self).num_voices == 1 ==> final(self).voices@[0].phase as int == (old(
                self,
            ).voices@[0].phase + spec_phase_incr(base_freq as int, sample_rate as int)) % (
            CYCLE as int),
            final(self).voices@ == spec_bank_voices_after(
                old(self).voices@,
                old(self).num_voices as int,
                base_freq as int,
                detune_cents as int,
                sample_rate as int,
            ),
            out == spec_bank_out(
                old(self).voices@,
                old(self).num_voices as int,
                waveform,
                phase_offset as int,
                blend as int,
                volume as int,
            ),
    {
        let n: usize = self.num_voices;
        if n == 1 {
            let ph: u64 = self.voices[0].phase;
            let off: i64 = self.voices[0].detune_offset;
            let s: i64 = generate(waveform, ph + phase_offset);
            let incr: u64 = phase_incr(base_freq, sample_rate);
            let np: u64 = (ph + incr) % CYCLE;
            self.voices[0] = OscillatorVoice { phase: np, detune_offset: off };
            proof {
                lemma_unit_scale_bound(s as int, volume as int);
                assert(self.voices@ =~= spec_bank_voices_after(
                    old(self).voices@,
                    1,
                    base_freq as int,
                    detune_cents as int,
                    sample_rate as int,
                ));
            }
            return mul_div(s, volume, Q_ONE);
        }
        let mut sum: i64 = 0;
        let mut mono: i64 = 0;
        let mut i: usize = 0;
        while i < n
            invariant
                self.wf(),
                self.num_voices == n,
                self.voices@.len() == old(self).voices@.len(),
                i <= n,
                forall|j: int|
                    i as int <= j < self.voices@.len() ==> (#[trigger] self.voices@[j]) == old(
                        self,
                    ).voices@[j],
                forall|j: int|
                    0 <= j < i as int ==> (#[trigger] self.voices@[j]).detune_offset == old(
                        self,
                    ).voices@[j].detune_offset,
                forall|j: int|
                    0 <= j < i as int ==> (#[trigger] self.voices@[j]).phase as int
                        == spec_advanced_phase(
                        old(self).voices@[j],
                        base_freq as int,
                        detune_cents as int,
                        sample_rate as int,
                    ),
                sum as int == spec_unison_sum(
                    old(self).voices@,
                    waveform,
                    phase_offset as int,
                    i as int,
                ),
                abs_val(sum as int) <= i as int * (Q_ONE as int),
                i > 0 ==> mono as int == spec_voice_sample(
                    old(self).voices@[0],
                    waveform,
                    phase_offset as int,
                ),
                -Q_ONE <= mono <= Q_ONE,
            decreases n - i,
        {
            let ph: u64 = self.voices[i].phase;
            let off: i64 = self.voices[i].detune_offset;
            let s: i64 = generate(waveform, ph + phase_offset);
            if i == 0 {
                mono = s;
            }
            proof {
                assert((i as int + 1) * (Q_ONE as int) == i as int * (Q_ONE as int) + Q_ONE)
                    by (nonlinear_arith);
            }
            sum = sum + s;
            proof {
                vstd::arithmetic::mul::lemma_mul_upper_bound(
                    abs_val(off as int),
                    16 * (Q_ONE as int),
                    abs_val(detune_cents as int),
                    50 * (HZ_ONE as int),
                );
                vstd::arithmetic::mul::lemma_mul_nonnegative(
                    abs_val(off as int),
                    abs_val(detune_cents as int),
                );
                lemma_div_below(
                    abs_val(off as int) * abs_val(detune_cents as int),
                    Q_ONE as int,
                    1200 * (HZ_ONE as int),
                );
            }
            let e: i64 = mul_div(off, detune_cents, 1200 * HZ_ONE);
            let factor: i64 = exp2_q(e);
            let freq: i64 = freq_scale(base_freq, factor);
            let incr: u64 = phase_incr(freq, sample_rate);
            let np: u64 = (ph + incr) % CYCLE;
            self.voices[i] = OscillatorVoice { phase: np, detune_offset: off };
            i = i + 1;
        }
        proof {
            assert((Q_ONE as int + 1) * (n as int) - 1 >= n as int * (Q_ONE as int))
                by (nonlinear_arith)
                requires
                    2 <= n;
            lemma_div_below(abs_val(sum as int), Q_ONE as int + 1, n as int);
        }
        let avg: i64 = mul_div(sum, 1, n as i64);
        proof {
            assert(abs_val(sum as int * 1) == abs_val(sum as int));
            lemma_unit_scale_bound(mono as int, Q_ONE - blend as int);
            lemma_unit_scale_bound(avg as int, blend as int);
        }
        let part_center: i64 = mul_div(mono, Q_ONE - blend, Q_ONE);
        let part_stack: i64 = mul_div(avg, blend, Q_ONE);
        let t: i64 = part_center + part_stack;
        proof {
            lemma_unit_scale_bound(t as int, volume as int);
            assert(self.voices@ =~= spec_bank_voices_after(
                old(self).voices@,
                n as int,
                base_freq as int,
                detune_cents as int,
                sample_rate as int,
            ));
        }
        mul_div(t, volume, Q_ONE)
    }

    /// Rewind every phase to zero, as a note start does.
    pub fn reset(&mut self)
        requires
            old(self).wf(),
        ensures
            final(self).wf(),
            final(self).num_voices == old(self).num_voices,
            final(self).voices@.len() == old(self).voices@.len(),
            forall|i: int|
                0 <= i < old(self).voices@.len() ==> (#[trigger] final(self).voices@[i]).phase == 0,
            forall|i: int|
                0 <= i < old(self).voices@.len() ==> (#[trigger] final(self).voices@[i]).detune_offset
                    == old(self).voices@[i].detune_offset,
    {
        let len: usize = self.voices.len();
        let mut i: usize = 0;
        while i < len
            invariant
                old(self).wf(),
                len == self.voices@.len(),
                len == old(self).voices@.len(),
                self.num_voices == old(self).num_voices,
                i <= len,
                forall|j: int|
                    i as int <= j < len as int ==> (#[trigger] self.voices@[j])
                        == old(self).voices@[j],
                forall|j: int| 0 <= j < i as int ==> (#[trigger] self.voices@[j]).phase == 0,
                forall|j: int|
                    0 <= j < i as int ==> (#[trigger] self.voices@[j]).detune_offset
                        == old(self).voices@[j].detune_offset,
            decreases len - i,
        {
            let off: i64 = self.voices[i].detune_offset;
            self.voices[i] = OscillatorVoice { phase: 0, detune_offset: off };
            i = i + 1;
        }
    }
}

} // verus!
