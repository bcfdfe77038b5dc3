//! Real-time audio-synthesis core of an embedded musical instrument.
//!
//! The crate is built around three pieces:
//!
//! * [`oscillator`] — a phase-accumulator oscillator with a continuously
//!   morphable waveform (sine / triangle / square), self phase modulation
//!   and a wavefolding saturator;
//! * [`recording`] — a ping-pong double buffer that accumulates samples
//!   inside the audio interrupt context and hands finished blocks to a
//!   non-real-time writer without stalls;
//! * [`audio`] — the shared-state fabric that exposes the oscillator and
//!   the recorder to the two execution contexts, one critical section per
//!   method, together with the per-block audio work.
//!
//! All signal values are Q15 fixed-point integers ([`fixed::ONE`] is one)
//! and phase is measured in binary phase units ([`oscillator::CYCLE`] is a
//! full cycle), so every step of the signal path has an exact contract.
//! The analogue boundary (knob scanning, DAC and display drivers, block
//! storage) stays outside this crate and talks to it in plain integers.

pub mod audio;
pub mod fixed;
pub mod knobs;
pub mod oscillator;
pub mod preview;
pub mod recording;
