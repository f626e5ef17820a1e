//! Fixed-point scalar formats and the arithmetic kernels of the engine.
//!
//! Three formats are used throughout the crate:
//! - Q24 (`Q_ONE` = 2^24): audio samples, envelope levels, gains, blend and
//!   resonance amounts, filter coefficients and the results of the function
//!   approximations below;
//! - Q32 turns (`CYCLE` = 2^32): oscillator phase, one full cycle per `CYCLE`;
//! - Q16 hertz (`HZ_ONE` = 2^16): frequencies.
//!
//! Every executable operation here is total: divisions are by provably
//! positive divisors, and results are clamped where a caller needs a hard
//! range. Signed products and quotients are computed on magnitudes in `u128`,
//! so the quotients round toward zero; the specification function `tdiv`
//! states that rounding exactly.

use vstd::prelude::*;
use vstd::arithmetic::div_mod::lemma_div_is_ordered;
use vstd::arithmetic::div_mod::lemma_div_is_ordered_by_denominator;
use vstd::arithmetic::div_mod::lemma_fundamental_div_mod;
use vstd::arithmetic::div_mod::lemma_fundamental_div_mod_converse_div;
use vstd::arithmetic::div_mod::lemma_fundamental_div_mod_converse_mod;
use vstd::arithmetic::mul::lemma_mul_upper_bound;
use vstd::arithmetic::mul::lemma_mul_unary_negation;
use vstd::arithmetic::mul::lemma_mul_nonnegative;
use vstd::arithmetic::power2::pow2;
use vstd::arithmetic::power2::lemma_pow2_strictly_increases;
use vstd::arithmetic::power2::lemma_pow2_pos;
use vstd::arithmetic::power2::lemma2_to64;
use vstd::bits::lemma_u64_shl_is_mul;
use vstd::bits::lemma_u64_shr_is_div;

verus! {

/// One in the Q24 sample/level format.
pub const Q_ONE: i64 = 0x100_0000;

/// One full oscillator cycle in the Q32 phase format.
pub const CYCLE: u64 = 0x1_0000_0000;

/// Half a cycle: the second half of every waveform period starts here.
pub const HALF_CYCLE: u64 = 0x8000_0000;

/// A quarter cycle: the offset between a sine and a cosine.
pub const QUARTER_CYCLE: u64 = 0x4000_0000;

/// One hertz in the Q16 frequency format.
pub const HZ_ONE: i64 = 0x1_0000;

/// Magnitude of a value.
pub open spec fn abs_val(x: int) -> int {
    if x < 0 {
        -x
    } else {
        x
    }
}

/// Division rounding toward zero, the semantics of every signed division in
/// this crate (the executable code divides magnitudes, which in spec-level
/// Euclidean division is exactly this).
pub open spec fn tdiv(a: int, d: int) -> int
    recommends
        d >= 1,
{
    if a >= 0 {
        a / d
    } else {
        -((-a) / d)
    }
}

/// `x` forced into `[lo, hi]`.
pub open spec fn spec_clamp(x: int, lo: int, hi: int) -> int {
    if x < lo {
        lo
    } else if x > hi {
        hi
    } else {
        x
    }
}

/// Clamp a scalar into `[lo, hi]`.
pub fn clamp64(x: i64, lo: i64, hi: i64) -> (r: i64)
    requires
        lo <= hi,
    ensures
        r == spec_clamp(x as int, lo as int, hi as int),
        lo <= r <= hi,
{
    if x < lo {
        lo
    } else if x > hi {
        hi
    } else {
        x
    }
}

/// The product `a * b` scaled down by `d`, rounding toward zero.
pub open spec fn spec_mul_div(a: int, b: int, d: int) -> int {
    tdiv(a * b, d)
}

/// Quotients shrink when the divisor is at least one.
pub(crate) proof fn lemma_quotient_le(p: int, d: int)
    requires
        0 <= p,
        1 <= d,
    ensures
        0 <= p / d <= p,
{
    lemma_div_is_ordered_by_denominator(p, 1, d);
}

/// `a * b / d` rounded toward zero; the workhorse of every Q24 product.
///
/// The bounds on `a` and `b` keep the magnitude product inside `u128` and the
/// quotient inside `i64`; they are wide enough for every signal, level,
/// coefficient and factor in the engine.
pub fn mul_div(a: i64, b: i64, d: i64) -> (r: i64)
    requires
        -0x8000_0000 <= a <= 0x8000_0000,
        -0x8000_0000 <= b <= 0x8000_0000,
        1 <= d,
    ensures
        r == spec_mul_div(a as int, b as int, d as int),
        abs_val(r as int) <= abs_val(a as int) * abs_val(b as int) / (d as int),
{
    let neg: bool = (a < 0) != (b < 0);
    let ua: u64 = if a < 0 {
        (-a) as u64
    } else {
        a as u64
    };
    let ub: u64 = if b < 0 {
        (-b) as u64
    } else {
        b as u64
    };
    proof {
        lemma_mul_upper_bound(ua as int, 0x8000_0000, ub as int, 0x8000_0000);
        lemma_mul_nonnegative(ua as int, ub as int);
        assert(a as int * b as int == if neg {
            -((ua as int) * (ub as int))
        } else {
            (ua as int) * (ub as int)
        }) by (nonlinear_arith)
            requires
                ua as int == (if a < 0 {
                    -(a as int)
                } else {
                    a as int
                }),
                ub as int == (if b < 0 {
                    -(b as int)
                } else {
                    b as int
                }),
                neg == ((a < 0) != (b < 0));
    }
    let p: u128 = (ua as u128) * (ub as u128);
    let q: u128 = p / (d as u128);
    proof {
        lemma_quotient_le(p as int, d as int);
    }
    let m: i64 = q as i64;
    if neg {
        -m
    } else {
        m
    }
}

/// Weight of the linear term in the shaped sine; the quadratic term gets the
/// rest, so the shaped peak stays exactly at one.
pub const SIN_A: i64 = 13002342;

/// Weight of the quadratic term in the shaped sine.
pub const SIN_B: i64 = Q_ONE - SIN_A;

/// A quotient `p / d` stays below `b` when `p` stays below `b * d`.
pub(crate) proof fn lemma_div_below(p: int, b: int, d: int)
    requires
        0 <= p,
        1 <= d,
        1 <= b,
        p <= b * d - 1,
    ensures
        0 <= p / d <= b - 1,
{
    lemma_div_is_ordered(p, b * d - 1, d);
    assert(b * d - 1 == (b - 1) * d + (d - 1)) by (nonlinear_arith);
    lemma_fundamental_div_mod_converse_div(b * d - 1, d, b - 1, d - 1);
    lemma_quotient_le(p, d);
}

/// Bounding step for evaluating a polynomial term `c * f / Q_ONE` with
/// `f` a fraction below one: the term stays below the coefficient bound.
proof fn lemma_poly_step(c: int, f: int, b: int)
    requires
        0 <= c <= b,
        1 <= b,
        0 <= f < Q_ONE,
    ensures
        0 <= c * f / (Q_ONE as int) <= b - 1,
{
    lemma_mul_upper_bound(c, b, f, Q_ONE - 1);
    assert(b * (Q_ONE - 1) <= b * Q_ONE - 1) by (nonlinear_arith)
        requires
            1 <= b;
    lemma_div_is_ordered(c * f, b * Q_ONE - 1, Q_ONE as int);
    lemma_fundamental_div_mod_converse_div(b * Q_ONE - 1, Q_ONE as int, b - 1, Q_ONE - 1);
    lemma_mul_nonnegative(c, f);
    lemma_quotient_le(c * f, Q_ONE as int);
}

/// The rising half wave of the shaped sine on `q` in `[0, HALF_CYCLE)`:
/// a parabola through zero at both ends and one at the middle, sharpened by a
/// quadratic correction, clamped into `[0, Q_ONE]`.
pub open spec fn spec_sine_half(q: int) -> int {
    let x = q / 128;
    let y0 = 4 * (x * (Q_ONE as int - x)) / (Q_ONE as int);
    let y = (SIN_A as int * y0 + SIN_B as int * (y0 * y0 / (Q_ONE as int))) / (Q_ONE as int);
    spec_clamp(y, 0, Q_ONE as int)
}

/// The shaped sine of a phase in Q32 turns, in Q24: odd-symmetric around the
/// half cycle, period one cycle.
pub open spec fn spec_sine(p: int) -> int {
    let pm = p % (CYCLE as int);
    if pm < HALF_CYCLE {
        spec_sine_half(pm)
    } else {
        -spec_sine_half(pm - HALF_CYCLE)
    }
}

/// Shaped sine of a phase accumulator value; any phase is taken modulo one
/// cycle. The result always stays within one.
pub fn sine_q(phase: u64) -> (r: i64)
    ensures
        r == spec_sine(phase as int),
        -Q_ONE <= r <= Q_ONE,
{
    let pm: u64 = phase % CYCLE;
    let neg: bool = pm >= HALF_CYCLE;
    let q: u64 = if neg {
        pm - HALF_CYCLE
    } else {
        pm
    };
    let x: u64 = q / 128;
    proof {
        lemma_div_below(q as int, Q_ONE as int, 128);
        lemma_mul_upper_bound(x as int, Q_ONE - 1, Q_ONE - x, Q_ONE as int);
        lemma_mul_nonnegative(x as int, Q_ONE - x);
    }
    let t: u64 = x * ((Q_ONE as u64) - x);
    let y0: u64 = (4 * t) / (Q_ONE as u64);
    proof {
        lemma_div_below(4 * (t as int), 4 * (Q_ONE as int), Q_ONE as int);
        lemma_mul_upper_bound(y0 as int, 4 * Q_ONE - 1, y0 as int, 4 * Q_ONE - 1);
        lemma_mul_nonnegative(y0 as int, y0 as int);
    }
    let u: u64 = (y0 * y0) / (Q_ONE as u64);
    proof {
        lemma_div_below((y0 * y0) as int, 16 * (Q_ONE as int), Q_ONE as int);
        lemma_mul_upper_bound(SIN_A as int, Q_ONE as int, y0 as int, 4 * (Q_ONE as int));
        lemma_mul_upper_bound(SIN_B as int, Q_ONE as int, u as int, 16 * (Q_ONE as int));
        lemma_mul_nonnegative(SIN_A as int, y0 as int);
        lemma_mul_nonnegative(SIN_B as int, u as int);
    }
    let yr: u64 = ((SIN_A as u64) * y0 + (SIN_B as u64) * u) / (Q_ONE as u64);
    proof {
        lemma_quotient_le(((SIN_A as u64) * y0 + (SIN_B as u64) * u) as int, Q_ONE as int);
    }
    let yc: u64 = if yr > Q_ONE as u64 {
        Q_ONE as u64
    } else {
        yr
    };
    let s: i64 = yc as i64;
    if neg {
        -s
    } else {
        s
    }
}

/// Linear coefficient of the cubic for two to a fractional power; the three
/// coefficients sum to exactly one, so the curve meets two at a whole power.
pub const EXP2_C1: i64 = 11677057;

/// Cubic coefficient of the fractional power curve.
pub const EXP2_C3: i64 = 1332708;

/// Quadratic coefficient of the fractional power curve.
pub const EXP2_C2: i64 = Q_ONE - EXP2_C1 - EXP2_C3;

/// Two to the power `f / Q_ONE` for a fraction `f` in `[0, Q_ONE)`, in Q24:
/// a cubic polynomial, exactly one at zero and below two everywhere.
pub open spec fn spec_exp2_frac(f: int) -> int {
    let t3 = EXP2_C3 as int * f / (Q_ONE as int);
    let t2 = (EXP2_C2 as int + t3) * f / (Q_ONE as int);
    let t1 = (EXP2_C1 as int + t2) * f / (Q_ONE as int);
    Q_ONE as int + t1
}

/// Two to the power `e / Q_ONE` for a Q24 exponent `e`, in Q24: the integer
/// part of the exponent shifts, the fractional part goes through the cubic.
pub open spec fn spec_exp2(e: int) -> int {
    let k = e / (Q_ONE as int);
    let f = e % (Q_ONE as int);
    let g = spec_exp2_frac(f);
    if k >= 0 {
        g * pow2(k as nat) as int
    } else {
        g / pow2((-k) as nat) as int
    }
}

/// The fractional-power cubic on `[0, Q_ONE)`.
fn exp2_frac(f: u64) -> (g: u64)
    requires
        f < Q_ONE as u64,
    ensures
        g == spec_exp2_frac(f as int),
        Q_ONE <= g < 2 * Q_ONE,
        f == 0 ==> g == Q_ONE,
{
    proof {
        lemma_mul_upper_bound(EXP2_C3 as int, EXP2_C3 as int, f as int, Q_ONE - 1);
        lemma_mul_nonnegative(EXP2_C3 as int, f as int);
        lemma_poly_step(EXP2_C3 as int, f as int, EXP2_C3 as int);
    }
    let t3: u64 = ((EXP2_C3 as u64) * f) / (Q_ONE as u64);
    proof {
        lemma_mul_upper_bound(EXP2_C2 as int + t3 as int, EXP2_C2 + EXP2_C3, f as int, Q_ONE - 1);
        lemma_mul_nonnegative(EXP2_C2 as int + t3 as int, f as int);
        lemma_poly_step(EXP2_C2 as int + t3 as int, f as int, EXP2_C2 + EXP2_C3);
    }
    let t2: u64 = (((EXP2_C2 as u64) + t3) * f) / (Q_ONE as u64);
    proof {
        lemma_mul_upper_bound(
            EXP2_C1 as int + t2 as int,
            EXP2_C1 + EXP2_C2 + EXP2_C3,
            f as int,
            Q_ONE - 1,
        );
        lemma_mul_nonnegative(EXP2_C1 as int + t2 as int, f as int);
        lemma_poly_step(EXP2_C1 as int + t2 as int, f as int, EXP2_C1 + EXP2_C2 + EXP2_C3);
    }
    let t1: u64 = (((EXP2_C1 as u64) + t2) * f) / (Q_ONE as u64);
    (Q_ONE as u64) + t1
}

/// Two to a Q24 power. The exponent range accepted here covers every use in
/// the engine: octave shifts, detune ratios, note pitches and envelope decay.
pub fn exp2_q(e: i64) -> (r: i64)
    requires
        -0x1_0000_0000_0000 <= e <= 32 * Q_ONE,
    ensures
        r == spec_exp2(e as int),
        0 <= r,
        e <= 0 ==> r <= Q_ONE,
        e == 0 ==> r == Q_ONE,
        e <= Q_ONE ==> r <= 2 * Q_ONE,
        e <= 4 * Q_ONE ==> r <= 32 * Q_ONE,
        e <= 16 * Q_ONE ==> r <= 0x2_0000 * Q_ONE,
        r <= 0x2_0000_0000 * Q_ONE,
{
    proof {
        lemma2_to64();
    }
    if e >= 0 {
        let k: u64 = (e as u64) / (Q_ONE as u64);
        let f: u64 = (e as u64) % (Q_ONE as u64);
        proof {
            lemma_div_below(e as int, 33, Q_ONE as int);
        }
        let g: u64 = exp2_frac(f);
        proof {
            if k < 32 {
                lemma_pow2_strictly_increases(k as nat, 32);
            }
            lemma_mul_upper_bound(g as int, 2 * Q_ONE - 1, pow2(k as nat) as int, 0x1_0000_0000);
            lemma_mul_nonnegative(g as int, pow2(k as nat) as int);
            lemma_u64_shl_is_mul(g, k);
            if e < Q_ONE {
                lemma_div_below(e as int, 1, Q_ONE as int);
                assert(k == 0);
            }
            if e == Q_ONE {
                lemma_fundamental_div_mod_converse_div(e as int, Q_ONE as int, 1, 0);
                lemma_fundamental_div_mod_converse_mod(e as int, Q_ONE as int, 1, 0);
                assert(k == 1 && f == 0);
            }
            if e <= 4 * Q_ONE {
                lemma_div_below(e as int, 5, Q_ONE as int);
                if k < 4 {
                    lemma_pow2_strictly_increases(k as nat, 4);
                }
                lemma_mul_upper_bound(g as int, 2 * Q_ONE - 1, pow2(k as nat) as int, 16);
            }
            if e <= 16 * Q_ONE {
                lemma_div_below(e as int, 17, Q_ONE as int);
                if k < 16 {
                    lemma_pow2_strictly_increases(k as nat, 16);
                }
                lemma_mul_upper_bound(g as int, 2 * Q_ONE - 1, pow2(k as nat) as int, 0x1_0000);
            }
        }
        let r: u64 = g << k;
        r as i64
    } else {
        let m: u64 = (-e) as u64;
        let kneg: u64 = (m + (Q_ONE as u64) - 1) / (Q_ONE as u64);
        proof {
            lemma_fundamental_div_mod((m + Q_ONE - 1) as int, Q_ONE as int);
            lemma_div_below((m + Q_ONE - 1) as int, 0x2_0000_0000, Q_ONE as int);
        }
        let f: u64 = kneg * (Q_ONE as u64) - m;
        proof {
            lemma_fundamental_div_mod_converse_div(
                e as int,
                Q_ONE as int,
                -(kneg as int),
                f as int,
            );
            lemma_fundamental_div_mod_converse_mod(
                e as int,
                Q_ONE as int,
                -(kneg as int),
                f as int,
            );
        }
        let g: u64 = exp2_frac(f);
        if kneg >= 26 {
            proof {
                lemma_pow2_strictly_increases(25, kneg as nat);
                lemma_fundamental_div_mod_converse_div(g as int, pow2(kneg as nat) as int, 0, g as int);
            }
            0
        } else {
            proof {
                lemma_u64_shr_is_div(g, kneg);
                lemma_pow2_pos(kneg as nat);
                lemma_pow2_strictly_increases(0, kneg as nat);
                lemma_div_is_ordered_by_denominator(g as int, 2, pow2(kneg as nat) as int);
                lemma_div_below(g as int, Q_ONE as int, 2);
                lemma_quotient_le(g as int, pow2(kneg as nat) as int);
            }
            let r: u64 = g >> kneg;
            r as i64
        }
    }
}

/// Five times the binary logarithm of Euler's number, in Q24: the exponent
/// scale of the envelope curves, which all decay as `exp(-5 x)`.
pub const DECAY_RATE_Q24: i64 = 121022032;

/// `exp(-5 p / Q_ONE)` in Q24 for a progress fraction `p` in `[0, Q_ONE]`:
/// one at zero progress, decaying toward zero.
pub open spec fn spec_exp_decay5(p: int) -> int {
    spec_exp2(-(p * DECAY_RATE_Q24 as int / (Q_ONE as int)))
}

/// The envelope decay curve `exp(-5 p)` of a Q24 progress fraction.
pub fn exp_decay5_q(p: i64) -> (r: i64)
    requires
        0 <= p <= Q_ONE,
    ensures
        r == spec_exp_decay5(p as int),
        0 <= r <= Q_ONE,
        p == 0 ==> r == Q_ONE,
{
    let t: i64 = mul_div(p, DECAY_RATE_Q24, Q_ONE);
    proof {
        lemma_mul_nonnegative(p as int, DECAY_RATE_Q24 as int);
        lemma_mul_upper_bound(p as int, Q_ONE as int, DECAY_RATE_Q24 as int, DECAY_RATE_Q24 as int);
        lemma_quotient_le(p as int * DECAY_RATE_Q24 as int, Q_ONE as int);
    }
    exp2_q(-t)
}

/// Soft saturation: the rational curve `u (27 + u^2) / (27 + 9 u^2)` on
/// magnitudes below three, one beyond, odd-symmetric and clamped into one.
pub open spec fn spec_tanh(x: int) -> int {
    let u = abs_val(x);
    let m = if u >= 3 * Q_ONE {
        Q_ONE as int
    } else {
        let u2 = u * u / (Q_ONE as int);
        let num = u * (27 * Q_ONE + u2) / (Q_ONE as int);
        let den = 27 * Q_ONE + 9 * u2;
        spec_clamp(num * Q_ONE / den, 0, Q_ONE as int)
    };
    if x < 0 {
        -m
    } else {
        m
    }
}

/// Soft saturation of a Q24 signal; the result never leaves `[-1, 1]`.
pub fn tanh_q(x: i64) -> (r: i64)
    requires
        -0x100_0000_0000 <= x <= 0x100_0000_0000,
    ensures
        r == spec_tanh(x as int),
        -Q_ONE <= r <= Q_ONE,
        x == 0 ==> r == 0,
        x >= 0 ==> r >= 0,
{
    let u: u64 = if x < 0 {
        (-x) as u64
    } else {
        x as u64
    };
    let m: u64 = if u >= 3 * (Q_ONE as u64) {
        Q_ONE as u64
    } else {
        proof {
            lemma_mul_upper_bound(u as int, 3 * Q_ONE - 1, u as int, 3 * Q_ONE - 1);
            lemma_mul_nonnegative(u as int, u as int);
            lemma_div_below((u * u) as int, 9 * (Q_ONE as int), Q_ONE as int);
        }
        let u2: u64 = (u * u) / (Q_ONE as u64);
        proof {
            lemma_mul_upper_bound(
                u as int,
                3 * Q_ONE - 1,
                27 * Q_ONE + u2 as int,
                36 * (Q_ONE as int),
            );
            lemma_mul_nonnegative(u as int, 27 * Q_ONE + u2 as int);
            lemma_div_below(
                (u * (27 * (Q_ONE as u64) + u2)) as int,
                108 * (Q_ONE as int),
                Q_ONE as int,
            );
        }
        let num: u64 = (u * (27 * (Q_ONE as u64) + u2)) / (Q_ONE as u64);
        let den: u64 = 27 * (Q_ONE as u64) + 9 * u2;
        proof {
            lemma_mul_upper_bound(num as int, 108 * Q_ONE, Q_ONE as int, Q_ONE as int);
            lemma_mul_nonnegative(num as int, Q_ONE as int);
            lemma_quotient_le(num as int * Q_ONE as int, den as int);
            if u == 0 {
                vstd::arithmetic::mul::lemma_mul_by_zero_is_zero(27 * Q_ONE + u2 as int);
                lemma_fundamental_div_mod_converse_div(0, Q_ONE as int, 0, 0);
                assert(num == 0);
                vstd::arithmetic::mul::lemma_mul_by_zero_is_zero(Q_ONE as int);
                lemma_fundamental_div_mod_converse_div(0, den as int, 0, 0);
            }
        }
        let q: u64 = (num * (Q_ONE as u64)) / den;
        if q > Q_ONE as u64 {
            Q_ONE as u64
        } else {
            q
        }
    };
    let s: i64 = m as i64;
    if x < 0 {
        -s
    } else {
        s
    }
}

/// A unit-bounded value scaled by a nonnegative Q24 weight keeps its
/// magnitude below the weight.
pub(crate) proof fn lemma_unit_scale_bound(a: int, w: int)
    requires
        abs_val(a) <= Q_ONE,
        0 <= w,
    ensures
        0 <= abs_val(a) * w / (Q_ONE as int) <= w,
{
    lemma_mul_upper_bound(abs_val(a), Q_ONE as int, w, w);
    lemma_div_is_ordered(abs_val(a) * w, (Q_ONE as int) * w, Q_ONE as int);
    assert((Q_ONE as int) * w == w * (Q_ONE as int) + 0) by (nonlinear_arith);
    lemma_fundamental_div_mod_converse_div((Q_ONE as int) * w, Q_ONE as int, w, 0);
    lemma_mul_nonnegative(abs_val(a), w);
    lemma_quotient_le(abs_val(a) * w, Q_ONE as int);
}

/// A value of magnitude at most `m` scaled by a unit-bounded Q24 weight
/// keeps its magnitude at most `m`.
pub(crate) proof fn lemma_q_scale_bound(a: int, w: int, m: int)
    requires
        abs_val(a) <= m,
        0 <= w <= Q_ONE,
    ensures
        0 <= abs_val(a) * w / (Q_ONE as int) <= m,
{
    lemma_mul_upper_bound(abs_val(a), m, w, Q_ONE as int);
    lemma_div_is_ordered(abs_val(a) * w, m * (Q_ONE as int), Q_ONE as int);
    lemma_fundamental_div_mod_converse_div(m * (Q_ONE as int), Q_ONE as int, m, 0);
    lemma_mul_nonnegative(abs_val(a), w);
    lemma_quotient_le(abs_val(a) * w, Q_ONE as int);
}

/// Highest representable frequency, about one megahertz in Q16: frequency
/// products saturate here instead of overflowing.
pub const FREQ_CAP_Q16: i64 = 0x10_0000_0000;

/// A Q16 frequency scaled by a Q24 factor, saturated at the frequency cap.
pub open spec fn spec_freq_scale(f: int, factor: int) -> int {
    spec_clamp(f * factor / (Q_ONE as int), 0, FREQ_CAP_Q16 as int)
}

/// Scale a frequency by a ratio (an octave shift, a detune factor, a pitch
/// ratio); the result saturates at the frequency cap.
pub fn freq_scale(f: i64, factor: i64) -> (r: i64)
    requires
        0 <= f,
        0 <= factor,
    ensures
        r == spec_freq_scale(f as int, factor as int),
        0 <= r <= FREQ_CAP_Q16,
{
    proof {
        lemma_mul_nonnegative(f as int, factor as int);
        lemma_mul_upper_bound(f as int, i64::MAX as int, factor as int, i64::MAX as int);
        lemma_quotient_le(f as int * factor as int, Q_ONE as int);
    }
    let p: u128 = (f as u128) * (factor as u128);
    let q: u128 = p / (Q_ONE as u128);
    if q > FREQ_CAP_Q16 as u128 {
        FREQ_CAP_Q16
    } else {
        q as i64
    }
}

/// The per-sample phase step of an oscillator at a Q16 frequency, in Q32
/// turns, reduced to less than one cycle.
pub open spec fn spec_phase_incr(freq: int, sr: int) -> int {
    (freq * (HZ_ONE as int) / sr) % (CYCLE as int)
}

/// Per-sample phase increment for a frequency at a sample rate.
pub fn phase_incr(freq: i64, sr: u32) -> (r: u64)
    requires
        0 <= freq <= FREQ_CAP_Q16,
        1 <= sr,
    ensures
        r == spec_phase_incr(freq as int, sr as int),
        r < CYCLE,
{
    let p: u64 = ((freq as u64) * (HZ_ONE as u64)) / (sr as u64);
    p % CYCLE
}

/// Shaped cosine: the sine a quarter cycle ahead.
pub open spec fn spec_cosine(p: int) -> int {
    spec_sine(p % (CYCLE as int) + QUARTER_CYCLE)
}

/// Shaped cosine of a phase accumulator value.
pub fn cosine_q(phase: u64) -> (r: i64)
    ensures
        r == spec_cosine(phase as int),
        -Q_ONE <= r <= Q_ONE,
{
    let pm: u64 = phase % CYCLE;
    sine_q(pm + QUARTER_CYCLE)
}

} // verus!
