//! Supervision logic for an FM receiver that is driven through external
//! command-line tools: a device probe, a demodulator piped into a player,
//! and the system's volume control.
//!
//! The library decides; the host acts. Every operation on a
//! [`session::Session`] returns the steps that the host has to carry out, in
//! order, and states in its contract exactly which steps these are and how
//! the session changes. The library starts no process, sleeps for no
//! moment, and holds no floating-point number.
//!
//! - [`session`]: the state between commands, and the steps of each command
//! - [`invocation`]: the command lines of the tools, letter for letter
//! - [`probe`]: reading the diagnostics of the device probe
//! - [`decimal`]: the numbers in command lines
//! - [`laws`]: what holds across commands

pub mod decimal;
pub mod invocation;
pub mod laws;
pub mod probe;
pub mod session;
