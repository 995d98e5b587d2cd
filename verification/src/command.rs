//! Commands the core asks the caller to emit on the outbound channel.
//!
//! The wire encoding of a command is owned by the transport layer; the core
//! only decides which command, with which fields, must be written next.

use vstd::prelude::*;

verus! {

/// One request on the outbound command channel.
///
/// `Echo` carries no field: every probe uses the one fixed filler payload,
/// available from [`crate::correlator::probe_payload`].
#[derive(Debug, Clone, PartialEq, Eq, Structural)]
pub enum Command {
    /// Configure the timer: prescalar-table index, timer/channel id, period.
    PwmPeriod { prescalar: u8, tcc_id: u8, period: u16 },
    /// Set a pin's duty cycle, in ticks of the configured period.
    PwmDutyCycle { pin: u8, duty_cycle: u16 },
    /// Drive a pin low.
    GpioLow(u8),
    /// Drive a pin high.
    GpioHigh(u8),
    /// Send one fixed-size probe payload for latency measurement.
    Echo,
}

/// Chooses the digital-output command for a pin: zero means low, anything
/// else means high.
pub fn gpio_set(pin: u8, value: u8) -> (r: Command)
    ensures
        value == 0 ==> r == Command::GpioLow(pin),
        value != 0 ==> r == Command::GpioHigh(pin),
{
    if value == 0 {
        Command::GpioLow(pin)
    } else {
        Command::GpioHigh(pin)
    }
}

} // verus!
