//! A frequency-driven synthesis engine in fixed point.
//!
//! Samples are integers where `oscillator::UNIT` stands for full scale (1.0),
//! phase is a fraction of `oscillator::PHASE_CYCLE`, frequencies are in
//! millihertz and amplitudes in units of `UNIT`.
pub mod oscillator;
pub mod parameter;
pub mod playback;
pub mod renderer;
pub mod engine;

pub use engine::Engine as FrequencyPlayer;
