//! Core of a hardware-telemetry racing simulation.
//!
//! Sampled PC metrics (CPU clock and load, GPU clock and temperature,
//! RAM and disk headroom) drive a car's performance figures, which an
//! explicit-Euler integrator turns into motion, with session rules
//! deciding victory and defeat.  All quantities are fixed-point
//! integers: thousandths of the displayed unit.

pub mod fixed;
pub mod flow;
pub mod game;
pub mod perf;
pub mod profile;
pub mod session;
pub mod telemetry;
pub mod vehicle;
