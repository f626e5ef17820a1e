//! The per-sample parameter snapshot the render loop consumes.
//!
//! An external smoothing collaborator produces one scalar per control per
//! sample; this module holds those scalars as plain fixed-point values and
//! clamps every one of them at the boundary, so malformed host automation
//! can never destabilize the filter or overflow the signal path.

use vstd::prelude::*;
use crate::filter::FilterMode;
use crate::fixed::HZ_ONE;
use crate::fixed::Q_ONE;
use crate::fixed::clamp64;
use crate::fixed::spec_clamp;
use crate::osc::Waveform;

verus! {

/// Lowest accepted oscillator or cutoff frequency, twenty hertz.
pub const FREQ_MIN_Q16: i64 = 20 * HZ_ONE;

/// Highest accepted oscillator or cutoff frequency, twenty kilohertz.
pub const FREQ_MAX_Q16: i64 = 20_000 * HZ_ONE;

/// Shortest accepted envelope stage time, about a millisecond.
pub const STAGE_MIN_Q16: i64 = 66;

/// Longest accepted attack or decay time, five seconds.
pub const STAGE_MAX_Q16: i64 = 5 * HZ_ONE;

/// Longest accepted release time, ten seconds.
pub const RELEASE_MAX_Q16: i64 = 10 * HZ_ONE;

/// Widest accepted per-oscillator detune, one hundred cents.
pub const DETUNE_MAX_Q16: i64 = 100 * HZ_ONE;

/// Widest accepted unison spread, fifty cents.
pub const UNISON_DETUNE_MAX_Q16: i64 = 50 * HZ_ONE;

/// Largest accepted octave shift in either direction.
pub const OCTAVE_MAX: i64 = 4;

/// Highest accepted drive, five times unity.
pub const DRIVE_MAX_Q24: i64 = 5 * Q_ONE;

/// The smoothed controls of one oscillator section.
#[derive(Clone, Copy)]
pub struct OscSettings {
    /// Waveform shape.
    pub waveform: Waveform,
    /// Tuned frequency in Q16 hertz; the pitch ratio against concert A
    /// scales the playing note.
    pub frequency: i64,
    /// Fine detune in Q16 cents.
    pub detune_cents: i64,
    /// Start-phase offset as a Q24 fraction of a cycle.
    pub phase_offset: i64,
    /// Output gain, Q24 in `[0, 1]`.
    pub gain: i64,
    /// Octave shift.
    pub octave: i64,
    /// How many unison voices sound.
    pub unison_voices: i64,
    /// Unison spread width in Q16 cents.
    pub unison_detune: i64,
    /// Crossfade between the center voice and the stack, Q24 in `[0, 1]`.
    pub unison_blend: i64,
    /// Unison section volume, Q24 in `[0, 1]`.
    pub unison_volume: i64,
}

/// One sample's worth of smoothed parameter values for the whole engine.
#[derive(Clone, Copy)]
pub struct SineParams {
    pub osc1: OscSettings,
    pub osc2: OscSettings,
    pub osc3: OscSettings,
    /// Filter response shape.
    pub filter_mode: FilterMode,
    /// Filter cutoff in Q16 hertz.
    pub filter_cutoff: i64,
    /// Filter resonance, Q24 in `[0, 1]`.
    pub filter_resonance: i64,
    /// Filter drive, Q24 in `[1, 5]`.
    pub filter_drive: i64,
    /// Envelope attack time in Q16 seconds.
    pub attack: i64,
    /// Envelope decay time in Q16 seconds.
    pub decay: i64,
    /// Envelope sustain level, Q24 in `[0, 1]`.
    pub sustain: i64,
    /// Envelope release time in Q16 seconds.
    pub release: i64,
}

/// An oscillator section whose every scalar sits in its documented range.
pub open spec fn spec_osc_valid(o: OscSettings) -> bool {
    &&& FREQ_MIN_Q16 <= o.frequency <= FREQ_MAX_Q16
    &&& -DETUNE_MAX_Q16 <= o.detune_cents <= DETUNE_MAX_Q16
    &&& 0 <= o.phase_offset <= Q_ONE
    &&& 0 <= o.gain <= Q_ONE
    &&& -OCTAVE_MAX <= o.octave <= OCTAVE_MAX
    &&& 1 <= o.unison_voices <= 8
    &&& 0 <= o.unison_detune <= UNISON_DETUNE_MAX_Q16
    &&& 0 <= o.unison_blend <= Q_ONE
    &&& 0 <= o.unison_volume <= Q_ONE
}

/// A parameter snapshot whose every scalar sits in its documented range.
pub open spec fn spec_params_valid(p: SineParams) -> bool {
    &&& spec_osc_valid(p.osc1)
    &&& spec_osc_valid(p.osc2)
    &&& spec_osc_valid(p.osc3)
    &&& FREQ_MIN_Q16 <= p.filter_cutoff <= FREQ_MAX_Q16
    &&& 0 <= p.filter_resonance <= Q_ONE
    &&& Q_ONE <= p.filter_drive <= DRIVE_MAX_Q24
    &&& STAGE_MIN_Q16 <= p.attack <= STAGE_MAX_Q16
    &&& STAGE_MIN_Q16 <= p.decay <= STAGE_MAX_Q16
    &&& 0 <= p.sustain <= Q_ONE
    &&& STAGE_MIN_Q16 <= p.release <= RELEASE_MAX_Q16
}

/// An oscillator section with every scalar forced into range.
pub open spec fn spec_clamp_osc(o: OscSettings) -> OscSettings {
    OscSettings {
        waveform: o.waveform,
        frequency: spec_clamp(o.frequency as int, FREQ_MIN_Q16 as int, FREQ_MAX_Q16 as int) as i64,
        detune_cents: spec_clamp(
            o.detune_cents as int,
            -DETUNE_MAX_Q16 as int,
            DETUNE_MAX_Q16 as int,
        ) as i64,
        phase_offset: spec_clamp(o.phase_offset as int, 0, Q_ONE as int) as i64,
        gain: spec_clamp(o.gain as int, 0, Q_ONE as int) as i64,
        octave: spec_clamp(o.octave as int, -OCTAVE_MAX as int, OCTAVE_MAX as int) as i64,
        unison_voices: spec_clamp(o.unison_voices as int, 1, 8) as i64,
        unison_detune: spec_clamp(o.unison_detune as int, 0, UNISON_DETUNE_MAX_Q16 as int) as i64,
        unison_blend: spec_clamp(o.unison_blend as int, 0, Q_ONE as int) as i64,
        unison_volume: spec_clamp(o.unison_volume as int, 0, Q_ONE as int) as i64,
    }
}

/// A parameter snapshot with every scalar forced into range.
pub open spec fn spec_clamp_params(p: SineParams) -> SineParams {
    SineParams {
        osc1: spec_clamp_osc(p.osc1),
        osc2: spec_clamp_osc(p.osc2),
        osc3: spec_clamp_osc(p.osc3),
        filter_mode: p.filter_mode,
        filter_cutoff: spec_clamp(
            p.filter_cutoff as int,
            FREQ_MIN_Q16 as int,
            FREQ_MAX_Q16 as int,
        ) as i64,
        filter_resonance: spec_clamp(p.filter_resonance as int, 0, Q_ONE as int) as i64,
        filter_drive: spec_clamp(p.filter_drive as int, Q_ONE as int, DRIVE_MAX_Q24 as int) as i64,
        attack: spec_clamp(p.attack as int, STAGE_MIN_Q16 as int, STAGE_MAX_Q16 as int) as i64,
        decay: spec_clamp(p.decay as int, STAGE_MIN_Q16 as int, STAGE_MAX_Q16 as int) as i64,
        sustain: spec_clamp(p.sustain as int, 0, Q_ONE as int) as i64,
        release: spec_clamp(p.release as int, STAGE_MIN_Q16 as int, RELEASE_MAX_Q16 as int) as i64,
    }
}

fn clamp_osc(o: &OscSettings) -> (r: OscSettings)
    ensures
        r == spec_clamp_osc(*o),
        spec_osc_valid(r),
{
    OscSettings {
        waveform: o.waveform,
        frequency: clamp64(o.frequency, FREQ_MIN_Q16, FREQ_MAX_Q16),
        detune_cents: clamp64(o.detune_cents, -DETUNE_MAX_Q16, DETUNE_MAX_Q16),
        phase_offset: clamp64(o.phase_offset, 0, Q_ONE),
        gain: clamp64(o.gain, 0, Q_ONE),
        octave: clamp64(o.octave, -OCTAVE_MAX, OCTAVE_MAX),
        unison_voices: clamp64(o.unison_voices, 1, 8),
        unison_detune: clamp64(o.unison_detune, 0, UNISON_DETUNE_MAX_Q16),
        unison_blend: clamp64(o.unison_blend, 0, Q_ONE),
        unison_volume: clamp64(o.unison_volume, 0, Q_ONE),
    }
}

impl SineParams {
    /// A copy of this snapshot with every scalar forced into its range:
    /// the engine applies this at its boundary before any arithmetic.
    pub fn clamped(&self) -> (r: SineParams)
        ensures
            r == spec_clamp_params(*self),
            spec_params_valid(r),
    {
        SineParams {
            osc1: clamp_osc(&self.osc1),
            osc2: clamp_osc(&self.osc2),
            osc3: clamp_osc(&self.osc3),
            filter_mode: self.filter_mode,
            filter_cutoff: clamp64(self.filter_cutoff, FREQ_MIN_Q16, FREQ_MAX_Q16),
            filter_resonance: clamp64(self.filter_resonance, 0, Q_ONE),
            filter_drive: clamp64(self.filter_drive, Q_ONE, DRIVE_MAX_Q24),
            attack: clamp64(self.attack, STAGE_MIN_Q16, STAGE_MAX_Q16),
            decay: clamp64(self.decay, STAGE_MIN_Q16, STAGE_MAX_Q16),
            sustain: clamp64(self.sustain, 0, Q_ONE),
            release: clamp64(self.release, STAGE_MIN_Q16, RELEASE_MAX_Q16),
        }
    }

}

impl Default for SineParams {
    /// The controls' rest position: a sine at concert A over a sawtooth an
    /// octave down and a square an octave up, a transparent low-pass, a
    /// plucked envelope.
    fn default() -> (r: SineParams)
        ensures
            spec_params_valid(r),
            r.osc1 == (OscSettings {
                waveform: Waveform::Sine,
                frequency: (440 * HZ_ONE) as i64,
                detune_cents: 0,
                phase_offset: 0,
                gain: (Q_ONE / 2) as i64,
                octave: 0,
                unison_voices: 1,
                unison_detune: 0,
                unison_blend: 0,
                unison_volume: Q_ONE as i64,
            }),
            r.osc2 == (OscSettings {
                waveform: Waveform::Sawtooth,
                frequency: (880 * HZ_ONE) as i64,
                gain: (Q_ONE / 4) as i64,
                octave: (-1) as i64,
                ..r.osc1
            }),
            r.osc3 == (OscSettings {
                waveform: Waveform::Square,
                frequency: (220 * HZ_ONE) as i64,
                gain: (Q_ONE / 8) as i64,
                octave: 1 as i64,
                ..r.osc1
            }),
            r.filter_mode == FilterMode::LowPass,
            r.filter_cutoff == FREQ_MAX_Q16,
            r.filter_resonance == 0,
            r.filter_drive == Q_ONE,
            r.attack == HZ_ONE / 100,
            r.decay == HZ_ONE / 2,
            r.sustain == 7 * Q_ONE / 10,
            r.release == HZ_ONE,
    {
        let osc1 = OscSettings {
            waveform: Waveform::Sine,
            frequency: 440 * HZ_ONE,
            detune_cents: 0,
            phase_offset: 0,
            gain: Q_ONE / 2,
            octave: 0,
            unison_voices: 1,
            unison_detune: 0,
            unison_blend: 0,
            unison_volume: Q_ONE,
        };
        let osc2 = OscSettings {
            waveform: Waveform::Sawtooth,
            frequency: 880 * HZ_ONE,
            gain: Q_ONE / 4,
            octave: -1,
            ..osc1
        };
        let osc3 = OscSettings {
            waveform: Waveform::Square,
            frequency: 220 * HZ_ONE,
            gain: Q_ONE / 8,
            octave: 1,
            ..osc1
        };
        SineParams {
            osc1,
            osc2,
            osc3,
            filter_mode: FilterMode::LowPass,
            filter_cutoff: FREQ_MAX_Q16,
            filter_resonance: 0,
            filter_drive: Q_ONE,
            attack: HZ_ONE / 100,
            decay: HZ_ONE / 2,
            sustain: 7 * Q_ONE / 10,
            release: HZ_ONE,
        }
    }
}

} // verus!
