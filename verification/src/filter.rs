//! The per-voice resonant filter: one biquad stage with a drive pre-stage.
//!
//! Coefficients come from the standard two-pole derivations, normalized so
//! the leading feedback coefficient is one. The cutoff is clamped below the
//! usable band edge and the quality factor floored, so the derivation never
//! divides by zero. The signal path saturates at fixed headroom bounds:
//! whatever the coefficients, one `process` call can never return a value
//! outside the output headroom, so a runaway feedback loop is impossible.

use vstd::prelude::*;
use crate::fixed::HZ_ONE;
use crate::fixed::Q_ONE;
use crate::fixed::abs_val;
use crate::fixed::clamp64;
use crate::fixed::cosine_q;
use crate::fixed::lemma_div_below;
use crate::fixed::mul_div;
use crate::fixed::phase_incr;
use crate::fixed::sine_q;
use crate::fixed::spec_clamp;
use crate::fixed::spec_cosine;
use crate::fixed::spec_mul_div;
use crate::fixed::spec_phase_incr;
use crate::fixed::spec_sine;
use crate::fixed::spec_tanh;
use crate::fixed::tanh_q;

verus! {

/// The filter's response shapes.
#[derive(Clone, Copy, PartialEq, Eq, Structural, Debug)]
pub enum FilterMode {
    LowPass,
    HighPass,
    BandPass,
    Notch,
}

impl Default for FilterMode {
    fn default() -> (r: Self)
        ensures
            r == FilterMode::LowPass,
    {
        FilterMode::LowPass
    }
}

/// Magnitude bound on every stored coefficient.
pub const COEF_BOUND_Q24: i64 = 4 * Q_ONE;

/// Headroom of the drive stage: its result saturates here.
pub const DRIVE_HEADROOM_Q24: i64 = 16 * Q_ONE;

/// Headroom of the filter output: one stage can never exceed this.
pub const OUT_HEADROOM_Q24: i64 = 64 * Q_ONE;

/// Lowest accepted cutoff, twenty hertz.
pub const CUTOFF_MIN_Q16: i64 = 20 * HZ_ONE;

/// A two-pole filter section with its coefficient set, two samples of input
/// and output history, and the sample rate its coefficients are derived at.
#[derive(Clone, Copy)]
pub struct BiquadFilter {
    /// Feed-forward coefficients, Q24.
    pub b0: i64,
    pub b1: i64,
    pub b2: i64,
    /// Feedback coefficients, Q24 (the leading one is implicitly one).
    pub a1: i64,
    pub a2: i64,
    /// Input history.
    pub x1: i64,
    pub x2: i64,
    /// Output history.
    pub y1: i64,
    pub y2: i64,
    /// Sample rate the coefficients were derived for.
    pub sample_rate: u32,
}

/// Cutoff forced into the stable band `[20 Hz, 49% of the sample rate]`.
pub open spec fn spec_cutoff_clamped(cutoff: int, sr: int) -> int {
    spec_clamp(cutoff, CUTOFF_MIN_Q16 as int, sr * (HZ_ONE as int) * 49 / 100)
}

/// The quality factor of a resonance fraction: ten times the fraction,
/// floored at one half.
pub open spec fn spec_q_factor(resonance: int) -> int {
    10 * resonance + (Q_ONE as int) / 2
}

/// The coefficient set a mode derives at a cutoff and resonance, written
/// over the clamped cutoff's phase step: `alpha` measures the resonance
/// bandwidth and `1 + alpha` normalizes every coefficient.
pub open spec fn spec_set_coefficients(
    f: BiquadFilter,
    mode: FilterMode,
    cutoff: int,
    resonance: int,
) -> BiquadFilter {
    let c = spec_cutoff_clamped(cutoff, f.sample_rate as int);
    let p = spec_phase_incr(c, f.sample_rate as int);
    let sinw = spec_sine(p);
    let cosw = spec_cosine(p);
    let q = spec_q_factor(resonance);
    let alpha = spec_clamp(spec_mul_div(sinw, Q_ONE as int, 2 * q), 0, Q_ONE as int);
    let norm = Q_ONE as int + alpha;
    let a1 = spec_mul_div(-2 * cosw, Q_ONE as int, norm);
    let a2 = spec_mul_div(Q_ONE as int - alpha, Q_ONE as int, norm);
    match mode {
        FilterMode::LowPass => BiquadFilter {
            b0: spec_mul_div(Q_ONE as int - cosw, Q_ONE as int, 2 * norm) as i64,
            b1: spec_mul_div(Q_ONE as int - cosw, Q_ONE as int, norm) as i64,
            b2: spec_mul_div(Q_ONE as int - cosw, Q_ONE as int, 2 * norm) as i64,
            a1: a1 as i64,
            a2: a2 as i64,
            ..f
        },
        FilterMode::HighPass => BiquadFilter {
            b0: spec_mul_div(Q_ONE as int + cosw, Q_ONE as int, 2 * norm) as i64,
            b1: (-spec_mul_div(Q_ONE as int + cosw, Q_ONE as int, norm)) as i64,
            b2: spec_mul_div(Q_ONE as int + cosw, Q_ONE as int, 2 * norm) as i64,
            a1: a1 as i64,
            a2: a2 as i64,
            ..f
        },
        FilterMode::BandPass => BiquadFilter {
            b0: spec_mul_div(alpha, Q_ONE as int, norm) as i64,
            b1: 0,
            b2: (-spec_mul_div(alpha, Q_ONE as int, norm)) as i64,
            a1: a1 as i64,
            a2: a2 as i64,
            ..f
        },
        FilterMode::Notch => BiquadFilter {
            b0: spec_mul_div(Q_ONE as int, Q_ONE as int, norm) as i64,
            b1: a1 as i64,
            b2: spec_mul_div(Q_ONE as int, Q_ONE as int, norm) as i64,
            a1: a1 as i64,
            a2: a2 as i64,
            ..f
        },
    }
}

/// What the drive stage hands the filter core: above unity drive, a soft
/// clip scaled back so unity drive stays transparent; at or below unity, a
/// plain scale. The input and the result are held inside the drive
/// headroom.
pub open spec fn spec_driven(input: int, drive: int) -> int {
    let x = spec_clamp(input, -(DRIVE_HEADROOM_Q24 as int), DRIVE_HEADROOM_Q24 as int);
    if drive > Q_ONE {
        let t = spec_tanh(spec_mul_div(x, drive, Q_ONE as int));
        let dn = spec_tanh(drive);
        let dnp = if dn < 1 {
            1
        } else {
            dn
        };
        spec_clamp(
            spec_mul_div(t, Q_ONE as int, dnp),
            -(DRIVE_HEADROOM_Q24 as int),
            DRIVE_HEADROOM_Q24 as int,
        )
    } else {
        spec_mul_div(x, drive, Q_ONE as int)
    }
}

/// The sample one filter step produces: the two-pole difference equation on
/// the driven input, saturated at the output headroom.
pub open spec fn spec_filter_out(f: BiquadFilter, input: int, drive: int) -> int {
    let driven = spec_driven(input, drive);
    spec_clamp(
        spec_mul_div(f.b0 as int, driven, Q_ONE as int) + spec_mul_div(
            f.b1 as int,
            f.x1 as int,
            Q_ONE as int,
        ) + spec_mul_div(f.b2 as int, f.x2 as int, Q_ONE as int) - spec_mul_div(
            f.a1 as int,
            f.y1 as int,
            Q_ONE as int,
        ) - spec_mul_div(f.a2 as int, f.y2 as int, Q_ONE as int),
        -(OUT_HEADROOM_Q24 as int),
        OUT_HEADROOM_Q24 as int,
    )
}

/// The filter state after one step: histories shift, the new output enters.
pub open spec fn spec_filter_step(f: BiquadFilter, input: int, drive: int) -> BiquadFilter {
    BiquadFilter {
        x1: spec_driven(input, drive) as i64,
        x2: f.x1,
        y1: spec_filter_out(f, input, drive) as i64,
        y2: f.y1,
        ..f
    }
}

impl BiquadFilter {
    /// Structural invariant: coefficients and histories inside their
    /// headroom, the sample rate high enough that the cutoff band is
    /// nonempty.
    pub open spec fn wf(&self) -> bool {
        &&& abs_val(self.b0 as int) <= COEF_BOUND_Q24
        &&& abs_val(self.b1 as int) <= COEF_BOUND_Q24
        &&& abs_val(self.b2 as int) <= COEF_BOUND_Q24
        &&& abs_val(self.a1 as int) <= COEF_BOUND_Q24
        &&& abs_val(self.a2 as int) <= COEF_BOUND_Q24
        &&& abs_val(self.x1 as int) <= DRIVE_HEADROOM_Q24
        &&& abs_val(self.x2 as int) <= DRIVE_HEADROOM_Q24
        &&& abs_val(self.y1 as int) <= OUT_HEADROOM_Q24
        &&& abs_val(self.y2 as int) <= OUT_HEADROOM_Q24
        &&& 41 <= self.sample_rate <= 1_000_000
    }

    /// A fresh, transparent filter: unity pass-through, empty history.
    pub fn new(sample_rate: u32) -> (r: Self)
        requires
            41 <= sample_rate <= 1_000_000,
        ensures
            r.wf(),
            r.b0 == Q_ONE && r.b1 == 0 && r.b2 == 0 && r.a1 == 0 && r.a2 == 0,
            r.x1 == 0 && r.x2 == 0 && r.y1 == 0 && r.y2 == 0,
            r.sample_rate == sample_rate,
    {
        BiquadFilter {
            b0: Q_ONE,
            b1: 0,
            b2: 0,
            a1: 0,
            a2: 0,
            x1: 0,
            x2: 0,
            y1: 0,
            y2: 0,
            sample_rate,
        }
    }

    /// Derive the five coefficients for a mode, cutoff and resonance at the
    /// stored sample rate.
    pub fn set_coefficients(&mut self, mode: FilterMode, cutoff: i64, resonance: i64)
        requires
            old(self).wf(),
            0 <= resonance <= Q_ONE,
        ensures
            final(self).wf(),
            *final(self) == spec_set_coefficients(*old(self), mode, cutoff as int, resonance as int),
    {
        proof {
            vstd::arithmetic::div_mod::lemma_div_is_ordered(
                41 * (HZ_ONE as int) * 49,
                self.sample_rate as int * (HZ_ONE as int) * 49,
                100,
            );
            vstd::arithmetic::div_mod::lemma_div_is_ordered(
                self.sample_rate as int * (HZ_ONE as int) * 49,
                1_000_000 * (HZ_ONE as int) * 49,
                100,
            );
            vstd::arithmetic::div_mod::lemma_fundamental_div_mod_converse_div(
                41 * (HZ_ONE as int) * 49,
                100,
                1316618,
                24,
            );
            vstd::arithmetic::div_mod::lemma_fundamental_div_mod_converse_div(
                1_000_000 * (HZ_ONE as int) * 49,
                100,
                32112640000,
                0,
            );
        }
        let hi: i64 = (((self.sample_rate as u64) * (HZ_ONE as u64) * 49) / 100) as i64;
        let c: i64 = clamp64(cutoff, CUTOFF_MIN_Q16, hi);
        let p: u64 = phase_incr(c, self.sample_rate);
        let sinw: i64 = sine_q(p);
        let cosw: i64 = cosine_q(p);
        let q: i64 = 10 * resonance + Q_ONE / 2;
        let alpha: i64 = clamp64(mul_div(sinw, Q_ONE, 2 * q), 0, Q_ONE);
        let norm: i64 = Q_ONE + alpha;
        let m2c: i64 = -(2 * cosw);
        let a1: i64 = Self::coef(m2c, norm);
        let a2: i64 = Self::coef(Q_ONE - alpha, norm);
        match mode {
            FilterMode::LowPass => {
                let b0: i64 = Self::coef(Q_ONE - cosw, 2 * norm);
                let b1: i64 = Self::coef(Q_ONE - cosw, norm);
                self.b0 = b0;
                self.b1 = b1;
                self.b2 = b0;
                self.a1 = a1;
                self.a2 = a2;
            },
            FilterMode::HighPass => {
                let b0: i64 = Self::coef(Q_ONE + cosw, 2 * norm);
                let b1: i64 = Self::coef(Q_ONE + cosw, norm);
                self.b0 = b0;
                self.b1 = -b1;
                self.b2 = b0;
                self.a1 = a1;
                self.a2 = a2;
            },
            FilterMode::BandPass => {
                let b0: i64 = Self::coef(alpha, norm);
                self.b0 = b0;
                self.b1 = 0;
                self.b2 = -b0;
                self.a1 = a1;
                self.a2 = a2;
            },
            FilterMode::Notch => {
                let b0: i64 = Self::coef(Q_ONE, norm);
                self.b0 = b0;
                self.b1 = a1;
                self.b2 = b0;
                self.a1 = a1;
                self.a2 = a2;
            },
        }
    }

    /// One normalized coefficient: the numerator scaled by one over the
    /// normalizer.
    fn coef(numer: i64, den: i64) -> (r: i64)
        requires
            abs_val(numer as int) <= 2 * Q_ONE,
            Q_ONE <= den <= 4 * Q_ONE,
        ensures
            r == spec_mul_div(numer as int, Q_ONE as int, den as int),
            abs_val(r as int) <= COEF_BOUND_Q24,
    {
        proof {
            vstd::arithmetic::mul::lemma_mul_upper_bound(
                abs_val(numer as int),
                2 * Q_ONE,
                Q_ONE as int,
                Q_ONE as int,
            );
            vstd::arithmetic::mul::lemma_mul_nonnegative(abs_val(numer as int), Q_ONE as int);
            assert((2 * (Q_ONE as int) + 1) * den as int - 1 >= 2 * (Q_ONE as int) * (Q_ONE as int))
                by (nonlinear_arith)
                requires
                    den >= Q_ONE;
            lemma_div_below(
                abs_val(numer as int) * (Q_ONE as int),
                2 * (Q_ONE as int) + 1,
                den as int,
            );
        }
        mul_div(numer, Q_ONE, den)
    }

    /// One filter step on a driven input sample. The output always stays
    /// inside the output headroom, whatever the coefficients: a runaway
    /// feedback loop saturates instead of growing without bound.
    pub fn process(&mut self, input: i64, drive: i64) -> (out: i64)
        requires
            old(self).wf(),
            0 <= drive <= 8 * Q_ONE,
        ensures
            final(self).wf(),
            *final(self) == spec_filter_step(*old(self), input as int, drive as int),
            out == spec_filter_out(*old(self), input as int, drive as int),
            abs_val(out as int) <= OUT_HEADROOM_Q24,
    {
        let x: i64 = clamp64(input, -DRIVE_HEADROOM_Q24, DRIVE_HEADROOM_Q24);
        let driven: i64 = if drive > Q_ONE {
            proof {
                vstd::arithmetic::mul::lemma_mul_upper_bound(
                    abs_val(x as int),
                    16 * (Q_ONE as int),
                    abs_val(drive as int),
                    8 * (Q_ONE as int),
                );
                vstd::arithmetic::mul::lemma_mul_nonnegative(
                    abs_val(x as int),
                    abs_val(drive as int),
                );
                lemma_div_below(
                    abs_val(x as int) * abs_val(drive as int),
                    128 * (Q_ONE as int) + 1,
                    Q_ONE as int,
                );
            }
            let t: i64 = tanh_q(mul_div(x, drive, Q_ONE));
            let dnr: i64 = tanh_q(drive);
            let dn: i64 = if dnr < 1 {
                1
            } else {
                dnr
            };
            clamp64(mul_div(t, Q_ONE, dn), -DRIVE_HEADROOM_Q24, DRIVE_HEADROOM_Q24)
        } else {
            proof {
                crate::fixed::lemma_q_scale_bound(x as int, drive as int, 16 * (Q_ONE as int));
            }
            mul_div(x, drive, Q_ONE)
        };
        proof {
            lemma_term_bound(self.b0 as int, driven as int, DRIVE_HEADROOM_Q24 as int);
            lemma_term_bound(self.b1 as int, self.x1 as int, DRIVE_HEADROOM_Q24 as int);
            lemma_term_bound(self.b2 as int, self.x2 as int, DRIVE_HEADROOM_Q24 as int);
            lemma_term_bound(self.a1 as int, self.y1 as int, OUT_HEADROOM_Q24 as int);
            lemma_term_bound(self.a2 as int, self.y2 as int, OUT_HEADROOM_Q24 as int);
        }
        let c0: i64 = mul_div(self.b0, driven, Q_ONE);
        let c1: i64 = mul_div(self.b1, self.x1, Q_ONE);
        let c2: i64 = mul_div(self.b2, self.x2, Q_ONE);
        let d1: i64 = mul_div(self.a1, self.y1, Q_ONE);
        let d2: i64 = mul_div(self.a2, self.y2, Q_ONE);
        let out: i64 = clamp64(c0 + c1 + c2 - d1 - d2, -OUT_HEADROOM_Q24, OUT_HEADROOM_Q24);
        self.x2 = self.x1;
        self.x1 = driven;
        self.y2 = self.y1;
        self.y1 = out;
        out
    }

    /// Forget the previous note's signal: zero all four history cells.
    pub fn reset(&mut self)
        requires
            old(self).wf(),
        ensures
            final(self).wf(),
            *final(self) == (BiquadFilter { x1: 0, x2: 0, y1: 0, y2: 0, ..*old(self) }),
    {
        self.x1 = 0;
        self.x2 = 0;
        self.y1 = 0;
        self.y2 = 0;
    }

    /// Change the sample rate and clear the history, as a stream restart
    /// does.
    pub fn set_sample_rate(&mut self, sample_rate: u32)
        requires
            old(self).wf(),
            41 <= sample_rate <= 1_000_000,
        ensures
            final(self).wf(),
            *final(self) == (BiquadFilter {
                sample_rate,
                x1: 0,
                x2: 0,
                y1: 0,
                y2: 0,
                ..*old(self)
            }),
    {
        self.sample_rate = sample_rate;
        self.reset();
    }
}

/// One difference-equation term `coef * signal / Q_ONE` stays within four
/// times the signal's headroom.
proof fn lemma_term_bound(coef: int, signal: int, headroom: int)
    requires
        abs_val(coef) <= COEF_BOUND_Q24,
        abs_val(signal) <= headroom,
        0 <= headroom <= 64 * Q_ONE,
    ensures
        0 <= abs_val(coef) * abs_val(signal) / (Q_ONE as int) <= 4 * headroom,
{
    vstd::arithmetic::mul::lemma_mul_upper_bound(abs_val(coef), 4 * Q_ONE, abs_val(signal), headroom);
    vstd::arithmetic::mul::lemma_mul_nonnegative(abs_val(coef), abs_val(signal));
    assert(4 * (Q_ONE as int) * headroom == (4 * headroom) * (Q_ONE as int)) by (nonlinear_arith);
    vstd::arithmetic::div_mod::lemma_div_is_ordered(
        abs_val(coef) * abs_val(signal),
        (4 * headroom) * (Q_ONE as int),
        Q_ONE as int,
    );
    vstd::arithmetic::div_mod::lemma_fundamental_div_mod_converse_div(
        (4 * headroom) * (Q_ONE as int),
        Q_ONE as int,
        4 * headroom,
        0,
    );
    crate::fixed::lemma_quotient_le(abs_val(coef) * abs_val(signal), Q_ONE as int);
}

} // verus!
