use echo_timing::command::{gpio_set, Command};
use echo_timing::pwm::{
    determine_duty_cycle_and_prescalar, pwm_duty_cycle, pwm_frequency, DutyCycle, PeripheralState,
    PwmDutyError, PwmFrequencyError,
};

const PRESCALARS: [usize; 8] = [1, 2, 4, 8, 16, 64, 256, 1024];

#[test]
fn quantize_5000_hz() {
    // 48000000 / 1 / 5000 = 9600 fits the register at the first table entry.
    assert_eq!(determine_duty_cycle_and_prescalar(5000), Ok((9600, 0)));
}

#[test]
fn quantize_1_hz() {
    // Only the largest prescalar brings 1 Hz into range: 48000000 / 1024 / 1
    // = 46875 < 65536, while the previous entry is still too coarse:
    assert_eq!(48000000 / 256 / 1, 187500);
    assert!(48000000 / 256 / 1 >= 0x10000);
    assert_eq!(determine_duty_cycle_and_prescalar(1), Ok((46875, 7)));
}

#[test]
fn quantize_floor_bias() {
    // 48000000 / 7 = 6857142.857...; every quotient is rounded down, so the
    // realized period is never longer than the ideal one and the realized
    // frequency comes out slightly high relative to the request.
    assert_eq!(determine_duty_cycle_and_prescalar(7), Ok((26785, 6)));
    let realized_ticks = 26785 * 256;
    assert!(realized_ticks * 7 <= 48000000);
}

#[test]
fn quantize_minimality_sweep() {
    for f in [1usize, 2, 3, 7, 500, 1000, 2500, 4999, 5000] {
        let (period, idx) = determine_duty_cycle_and_prescalar(f).unwrap();
        assert_eq!(period, 48000000 / PRESCALARS[idx] / f);
        assert!(0 < period && period < 0x10000);
        for j in 0..idx {
            assert!(48000000 / PRESCALARS[j] / f >= 0x10000);
        }
    }
}

#[test]
fn frequency_range_errors() {
    let mut state = PeripheralState::new();
    assert_eq!(pwm_frequency(&mut state, 0), Err(PwmFrequencyError::Range));
    assert_eq!(pwm_frequency(&mut state, 5001), Err(PwmFrequencyError::Range));
    // a rejected request leaves the state unconfigured
    assert_eq!(state.period, 0);
}

#[test]
fn frequency_updates_state() {
    let mut state = PeripheralState::new();
    let cmd = pwm_frequency(&mut state, 5000).unwrap();
    assert_eq!(cmd, Command::PwmPeriod { prescalar: 0, tcc_id: 0, period: 9600 });
    assert_eq!(state.period, 9600);
    assert_eq!(state.prescalar_index, 0);
}

#[test]
fn duty_cycle_half() {
    let mut state = PeripheralState::new();
    pwm_frequency(&mut state, 5000).unwrap();
    let half = DutyCycle { numerator: 1, denominator: 2 };
    let cmd = pwm_duty_cycle(&state, 5, half).unwrap();
    assert_eq!(cmd, Command::PwmDutyCycle { pin: 5, duty_cycle: 4800 });
}

#[test]
fn duty_cycle_rounds_down() {
    let state = PeripheralState { period: 10, prescalar_index: 0 };
    let third = DutyCycle { numerator: 1, denominator: 3 };
    let cmd = pwm_duty_cycle(&state, 2, third).unwrap();
    assert_eq!(cmd, Command::PwmDutyCycle { pin: 2, duty_cycle: 3 });
}

#[test]
fn duty_cycle_endpoints() {
    let state = PeripheralState { period: 9600, prescalar_index: 0 };
    let zero = DutyCycle { numerator: 0, denominator: 1 };
    let full = DutyCycle { numerator: 1, denominator: 1 };
    assert_eq!(
        pwm_duty_cycle(&state, 5, zero),
        Ok(Command::PwmDutyCycle { pin: 5, duty_cycle: 0 })
    );
    assert_eq!(
        pwm_duty_cycle(&state, 5, full),
        Ok(Command::PwmDutyCycle { pin: 5, duty_cycle: 9600 })
    );
}

#[test]
fn duty_cycle_range_error() {
    let state = PeripheralState { period: 9600, prescalar_index: 0 };
    let three_halves = DutyCycle { numerator: 3, denominator: 2 };
    assert_eq!(pwm_duty_cycle(&state, 5, three_halves), Err(PwmDutyError::Range));
}

#[test]
fn duty_cycle_requires_frequency() {
    let state = PeripheralState::new();
    let half = DutyCycle { numerator: 1, denominator: 2 };
    assert_eq!(pwm_duty_cycle(&state, 5, half), Err(PwmDutyError::NoFrequency));
}

#[test]
fn gpio_set_levels() {
    assert_eq!(gpio_set(7, 0), Command::GpioLow(7));
    assert_eq!(gpio_set(7, 1), Command::GpioHigh(7));
    assert_eq!(gpio_set(3, 255), Command::GpioHigh(3));
}
