//! Signal-generation core of a polyphonic, multi-oscillator synthesizer.
//!
//! Given a stream of note-on/note-off events and per-sample parameter values,
//! the engine produces one audio sample per tick with no allocation on the
//! rendering path. All signal values are exact fixed-point integers: audio
//! samples, envelope levels and filter coefficients carry 24 fractional bits,
//! oscillator phases are fractions of a cycle with 32 fractional bits, and
//! frequencies are measured in hertz with 16 fractional bits. Every arithmetic
//! step is total: inputs are clamped at the boundary and intermediate signals
//! saturate at a fixed headroom instead of overflowing.

pub mod engine;
pub mod envelope;
pub mod filter;
pub mod fixed;
pub mod osc;
pub mod params;
pub mod voice;
