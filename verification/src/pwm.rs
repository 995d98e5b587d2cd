//! Frequency quantization and duty-cycle encoding for the PWM timer.

use vstd::prelude::*;
use crate::command::Command;

verus! {

/// Maximum number of ticks before a period completes.
pub const PWM_MAX_PERIOD: usize = 0xFFFF;

/// Highest frequency the policy accepts, in Hz.
pub const PWM_MAX_FREQUENCY: usize = 5000;

/// Lowest frequency the policy accepts, in Hz.
pub const PWM_MIN_FREQUENCY: usize = 1;

/// Number of entries in the prescalar table.
pub const NUM_PRESCALARS: usize = 8;

/// Unscaled timer ticks in one second (48 MHz).
pub const SAMD21_TICKS_PER_SECOND: usize = 48000000;

/// The fixed prescalar table, ascending: 1, 2, 4, 8, 16, 64, 256, 1024.
pub open spec fn prescalar_at(i: int) -> int {
    if i == 0 {
        1
    } else if i == 1 {
        2
    } else if i == 2 {
        4
    } else if i == 3 {
        8
    } else if i == 4 {
        16
    } else if i == 5 {
        64
    } else if i == 6 {
        256
    } else {
        1024
    }
}

/// Prescalar table lookup.
pub fn prescalar(i: usize) -> (r: usize)
    requires
        i < NUM_PRESCALARS,
    ensures
        r == prescalar_at(i as int),
{
    match i {
        0 => 1,
        1 => 2,
        2 => 4,
        3 => 8,
        4 => 16,
        5 => 64,
        6 => 256,
        _ => 1024,
    }
}

/// The period the timer would count at table entry `i` for frequency `f`:
/// the tick rate divided by the prescalar and the frequency, rounded down.
pub open spec fn period_for(f: int, i: int) -> int {
    SAMD21_TICKS_PER_SECOND as int / prescalar_at(i) / f
}

/// Errors from frequency quantization.
#[derive(Debug, Clone, PartialEq, Eq, Structural)]
pub enum PwmFrequencyError {
    /// The requested frequency is outside the accepted range.
    Range,
    /// No table entry yields a representable period (defensive; cannot
    /// happen for any positive frequency).
    Prescalar,
}

/// Errors from duty-cycle encoding.
#[derive(Debug, Clone, PartialEq, Eq, Structural)]
pub enum PwmDutyError {
    /// The requested duty cycle is outside [0, 1].
    Range,
    /// No frequency has been configured yet, so no period is known.
    NoFrequency,
}

/// Scans the prescalar table in ascending order and returns the first entry
/// whose period fits the 16-bit period register, together with that period.
///
/// Rounding down means the realized period never exceeds the register's
/// capacity; it biases the realized frequency slightly high relative to the
/// request.
pub fn determine_duty_cycle_and_prescalar(frequency: usize) -> (r: Result<
    (usize, usize),
    PwmFrequencyError,
>)
    requires
        frequency >= 1,
    ensures
        r is Ok,
        r matches Ok((period, prescalar_index)) ==> {
            &&& prescalar_index < NUM_PRESCALARS
            &&& period == period_for(frequency as int, prescalar_index as int)
            &&& period < PWM_MAX_PERIOD
            &&& forall|j: int|
                0 <= j < prescalar_index ==> period_for(frequency as int, j) >= PWM_MAX_PERIOD
        },
{
    let mut prescalar_index: usize = 0;

    loop
        invariant
            frequency >= 1,
            prescalar_index < NUM_PRESCALARS,
            forall|j: int|
                0 <= j < prescalar_index ==> period_for(frequency as int, j) >= PWM_MAX_PERIOD,
        decreases NUM_PRESCALARS - prescalar_index,
    {
        let period = SAMD21_TICKS_PER_SECOND / prescalar(prescalar_index) / frequency;

        if period < PWM_MAX_PERIOD {
            return Ok((period, prescalar_index));
        }

        prescalar_index += 1;
        if prescalar_index == NUM_PRESCALARS {
            proof {
                // The last table entry always fits: 48000000 / 1024 = 46875,
                // and 46875 / frequency can be at most 46875 < 0xFFFF,
                // contradicting the loop invariant at index 7.
                assert(SAMD21_TICKS_PER_SECOND as int / prescalar_at(7) == 46875);
                vstd::arithmetic::div_mod::lemma_div_nonincreasing(46875, frequency as int);
                assert(period_for(frequency as int, 7) < PWM_MAX_PERIOD);
            }
            return Err(PwmFrequencyError::Prescalar);
        }
    }
}

/// The currently active timer configuration. A period of zero means no
/// frequency has been configured yet.
pub struct PeripheralState {
    /// Ticks per cycle, for the 16-bit period register; zero = unconfigured.
    pub period: u16,
    /// Index into the prescalar table of the active prescalar.
    pub prescalar_index: usize,
}

impl PeripheralState {
    /// A fresh, unconfigured state.
    pub fn new() -> (s: Self)
        ensures
            s.period == 0,
            s.prescalar_index == 0,
    {
        PeripheralState { period: 0, prescalar_index: 0 }
    }
}

/// Quantizes `frequency` and records the result in `state`, returning the
/// timer-configuration command the caller must write on the channel.
/// Frequencies outside [1, 5000] are rejected with `Range` and leave the
/// state untouched.
pub fn pwm_frequency(state: &mut PeripheralState, frequency: usize) -> (r: Result<
    Command,
    PwmFrequencyError,
>)
    ensures
        frequency < PWM_MIN_FREQUENCY || frequency > PWM_MAX_FREQUENCY ==> {
            &&& r == Err::<Command, PwmFrequencyError>(PwmFrequencyError::Range)
            &&& *final(state) == *old(state)
        },
        PWM_MIN_FREQUENCY <= frequency <= PWM_MAX_FREQUENCY ==> (r matches Ok(
            Command::PwmPeriod { prescalar, tcc_id, period },
        ) && {
            &&& tcc_id == 0
            &&& (prescalar as usize) < NUM_PRESCALARS
            &&& period == period_for(frequency as int, prescalar as int)
            &&& period < PWM_MAX_PERIOD
            &&& forall|j: int|
                0 <= j < prescalar as int ==> period_for(frequency as int, j) >= PWM_MAX_PERIOD
            &&& final(state).period == period
            &&& final(state).prescalar_index == prescalar as usize
        }),
{
    if frequency < PWM_MIN_FREQUENCY || frequency > PWM_MAX_FREQUENCY {
        return Err(PwmFrequencyError::Range);
    }

    let (period, prescalar_index) = match determine_duty_cycle_and_prescalar(frequency) {
        Ok(pair) => pair,
        Err(e) => {
            return Err(e);
        },
    };

    state.period = period as u16;
    state.prescalar_index = prescalar_index;

    let tcc_id: u8 = 0;

    Ok(Command::PwmPeriod { prescalar: prescalar_index as u8, tcc_id, period: period as u16 })
}

/// A fractional duty cycle, held exactly as `numerator / denominator`.
/// Values above one are representable so that out-of-range requests can be
/// rejected with the proper error.
#[derive(Debug, Clone, Copy, PartialEq, Eq, Structural)]
pub struct DutyCycle {
    /// Fraction numerator.
    pub numerator: u32,
    /// Fraction denominator; must be positive.
    pub denominator: u32,
}

/// The tick count a duty-cycle fraction selects within one period: the
/// fraction of the period, rounded down.
pub open spec fn duty_ticks(numerator: int, denominator: int, period: int) -> int {
    numerator * period / denominator
}

/// Encodes a duty-cycle fraction against the configured period, returning
/// the duty-cycle command for `pin` the caller must write on the channel.
/// Fractions above one are rejected with `Range`; an unconfigured state
/// (period zero) is rejected with `NoFrequency`. On success the tick count
/// never exceeds the period.
pub fn pwm_duty_cycle(state: &PeripheralState, pin: u8, duty_cycle: DutyCycle) -> (r: Result<
    Command,
    PwmDutyError,
>)
    requires
        duty_cycle.denominator >= 1,
    ensures
        duty_cycle.numerator > duty_cycle.denominator ==> r == Err::<Command, PwmDutyError>(
            PwmDutyError::Range,
        ),
        duty_cycle.numerator <= duty_cycle.denominator && state.period == 0 ==> r == Err::<
            Command,
            PwmDutyError,
        >(PwmDutyError::NoFrequency),
        duty_cycle.numerator <= duty_cycle.denominator && state.period != 0 ==> (r matches Ok(
            Command::PwmDutyCycle { pin: p, duty_cycle: ticks },
        ) && {
            &&& p == pin
            &&& ticks == duty_ticks(
                duty_cycle.numerator as int,
                duty_cycle.denominator as int,
                state.period as int,
            )
            &&& ticks <= state.period
        }),
{
    if duty_cycle.numerator > duty_cycle.denominator {
        return Err(PwmDutyError::Range);
    }

    if state.period == 0 {
        return Err(PwmDutyError::NoFrequency);
    }

    let numerator = duty_cycle.numerator as u64;
    let denominator = duty_cycle.denominator as u64;
    let period = state.period as u64;

    proof {
        assert(numerator * period <= u64::MAX) by (nonlinear_arith)
            requires
                numerator <= u32::MAX,
                period <= u16::MAX,
        ;
        // numerator <= denominator, so the scaled value stays within one period.
        vstd::arithmetic::mul::lemma_mul_inequality(
            numerator as int,
            denominator as int,
            period as int,
        );
        vstd::arithmetic::div_mod::lemma_div_is_ordered(
            numerator as int * period as int,
            denominator as int * period as int,
            denominator as int,
        );
        vstd::arithmetic::div_mod::lemma_div_multiples_vanish(period as int, denominator as int);
    }

    let ticks_wide = numerator * period / denominator;
    assert(ticks_wide <= period);
    let ticks = ticks_wide as u16;

    Ok(Command::PwmDutyCycle { pin, duty_cycle: ticks })
}

/// When no quotient of `c` lands exactly on 0xFFFF (witnessed by
/// `c / 0xFFFF == c / 0x10000`), a quotient of `c` at or above 0xFFFF is in
/// fact at or above 0x10000.
proof fn lemma_div_skips_boundary(c: int, f: int)
    requires
        0 <= c,
        1 <= f,
        c / 0xFFFF == c / 0x10000,
        c / f >= 0xFFFF,
    ensures
        c / f >= 0x10000,
{
    if c / f < 0x10000 {
        let q = c / f;
        assert(q == 0xFFFF);
        vstd::arithmetic::div_mod::lemma_fundamental_div_mod(c, f);
        vstd::arithmetic::div_mod::lemma_mod_bound(c, f);
        let r = c % f;
        assert(c == f * q + r);
        assert(c >= 0xFFFF * f) by (nonlinear_arith)
            requires
                c == f * q + r,
                q == 0xFFFF,
                r >= 0,
        ;
        assert(c <= 0x10000 * f - 1) by (nonlinear_arith)
            requires
                c == f * q + r,
                q == 0xFFFF,
                r < f,
        ;
        // From c >= 0xFFFF * f:  f <= c / 0xFFFF.
        vstd::arithmetic::div_mod::lemma_div_is_ordered(0xFFFF * f, c, 0xFFFF);
        vstd::arithmetic::div_mod::lemma_div_multiples_vanish(f, 0xFFFF);
        assert(f <= c / 0xFFFF);
        // From c <= 0x10000 * f - 1:  c / 0x10000 <= f - 1.
        vstd::arithmetic::div_mod::lemma_div_is_ordered(c, 0x10000 * f - 1, 0x10000);
        vstd::arithmetic::div_mod::lemma_fundamental_div_mod_converse_div(
            0x10000 * f - 1,
            0x10000,
            f - 1,
            0xFFFF,
        );
        assert(c / 0x10000 <= f - 1);
        assert(false);
    }
}

/// Every frequency in the accepted range quantizes to a period strictly
/// between zero and 0x10000, and the chosen prescalar is minimal even
/// against the looser 0x10000 bound: every earlier table entry yields a
/// period of at least 0x10000.
pub proof fn lemma_quantization_bounds(f: int, period: int, prescalar_index: int)
    requires
        PWM_MIN_FREQUENCY <= f <= PWM_MAX_FREQUENCY,
        0 <= prescalar_index < NUM_PRESCALARS,
        period == period_for(f, prescalar_index),
        period < PWM_MAX_PERIOD,
        forall|j: int| 0 <= j < prescalar_index ==> period_for(f, j) >= PWM_MAX_PERIOD,
    ensures
        0 < period < 0x10000,
        forall|j: int| 0 <= j < prescalar_index ==> period_for(f, j) >= 0x10000,
{
    let t = SAMD21_TICKS_PER_SECOND as int;

    // Positivity: the scaled tick rate is at least 46875 at every table
    // entry, and dividing that by a frequency of at most 5000 leaves at
    // least 9 ticks.
    let c = t / prescalar_at(prescalar_index);
    assert(1 <= prescalar_at(prescalar_index) <= 1024);
    vstd::arithmetic::div_mod::lemma_div_is_ordered_by_denominator(
        t,
        prescalar_at(prescalar_index),
        1024,
    );
    assert(t / 1024 == 46875);
    vstd::arithmetic::div_mod::lemma_div_is_ordered(46875, c, f);
    vstd::arithmetic::div_mod::lemma_div_is_ordered_by_denominator(46875, f, 5000);
    assert(46875int / 5000 == 9);
    assert(period >= 9);

    // Minimality against 0x10000: no scaled tick rate in the table has a
    // quotient landing exactly on 0xFFFF, so "at least 0xFFFF" tightens to
    // "at least 0x10000".
    assert forall|j: int| 0 <= j < prescalar_index implies period_for(f, j) >= 0x10000 by {
        let cj = t / prescalar_at(j);
        assert(period_for(f, j) >= PWM_MAX_PERIOD);
        assert(cj / f >= 0xFFFF);
        if j == 0 {
            assert(cj == 48000000 && cj / 0xFFFF == 732 && cj / 0x10000 == 732);
        } else if j == 1 {
            assert(cj == 24000000 && cj / 0xFFFF == 366 && cj / 0x10000 == 366);
        } else if j == 2 {
            assert(cj == 12000000 && cj / 0xFFFF == 183 && cj / 0x10000 == 183);
        } else if j == 3 {
            assert(cj == 6000000 && cj / 0xFFFF == 91 && cj / 0x10000 == 91);
        } else if j == 4 {
            assert(cj == 3000000 && cj / 0xFFFF == 45 && cj / 0x10000 == 45);
        } else if j == 5 {
            assert(cj == 750000 && cj / 0xFFFF == 11 && cj / 0x10000 == 11);
        } else {
            assert(cj == 187500 && cj / 0xFFFF == 2 && cj / 0x10000 == 2);
        }
        lemma_div_skips_boundary(cj, f);
    }
}

} // verus!
