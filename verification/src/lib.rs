//! Control core of a self-mutating FM synthesizer.
//!
//! The audio-rate signal math (waveforms, envelope curves, the filter) runs on
//! floating-point samples and lives in the surrounding application; this crate
//! verifies everything that can be stated over plain values: the envelope
//! state machine, the oscillator phase accumulator, and the mutation
//! scheduler that reconfigures the synthesizer at tempo-locked intervals.

pub mod envelope;
pub mod operator;
pub mod rng;
pub mod synth;
