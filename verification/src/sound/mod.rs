//! The registers and counters of the two sound chips. What they sound like
//! is worked out by whoever mixes the samples; here is what a write does
//! to them and how their counters run.

pub mod psg;
pub mod ym2612;

pub use psg::{NoiseChannel, Psg, PsgView, ToneChannel};
pub use ym2612::Ym2612;
