//! The discrete core of a double-pendulum simulator: the validation of its
//! parameters, the rules that govern the integrator's time step, and bounded
//! histories of samples with the chaos diagnostics computed over them.
//!
//! Real numbers cross this crate's boundary as IEEE-754 binary64 bit
//! patterns: [`ieee::Double`] holds the pattern of a machine number `x` as
//! `Double::from_bits(x.to_bits())`. The crate compares such numbers, and
//! proves its comparisons against their values; arithmetic that rounds is
//! done on the machine's numbers by the caller, who hands it in where a
//! diagnostic needs it.

pub mod divergence;
pub mod history;
pub mod ieee;
pub mod pendulum;
pub mod physics;
pub mod presets;
pub mod recurrence;
pub mod statistics;
