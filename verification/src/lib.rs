//! Core of a scrolling oscilloscope: fixed-capacity ring-buffer sample
//! storage for eight logical channels, a decimation gate, a beat/transport
//! synchronizer, and the per-block capture controller that ties them
//! together. A GUI and plugin host sit outside this crate; they hand the
//! controller plain values (sample words, transport positions, control
//! flags) and read windows of captured samples back.
//!
//! Samples are carried as `u32` words holding the bit pattern of an IEEE 754
//! single-precision value. The capture logic performs no floating-point
//! arithmetic: scaling by the visual gain and summing enabled channels are
//! done by the caller, while every test the logic itself makes on a sample
//! (bit-identical duplicates, magnitude thresholds) is exact on the word's
//! bits.

pub mod frame;
pub mod gate;
pub mod ring;
pub mod scope;
pub mod store;
pub mod sync;
pub mod words;
