//! Timing-control core for a host-to-microcontroller link.
//!
//! Three pieces of logic live here: quantizing a requested signal frequency
//! into a hardware period/prescalar pair, converting a fractional duty cycle
//! into a tick count for the configured period, and correlating round-trip
//! probes with the sentinel bytes that signal their completion.

pub mod command;
pub mod correlator;
pub mod pwm;
