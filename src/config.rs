use vstd::prelude::*;

verus! {

// Button identifiers.
pub const BUTTON_A: u8 = 0;
pub const BUTTON_B: u8 = 1;
pub const BUTTON_X: u8 = 2;
pub const BUTTON_Y: u8 = 3;
pub const NUM_BUTTONS: usize = 4;

// Underlight positions.
pub const LIGHT_FRONT_RIGHT: u8 = 0;
pub const LIGHT_FRONT_LEFT: u8 = 1;
pub const LIGHT_MIDDLE_LEFT: u8 = 2;
pub const LIGHT_REAR_LEFT: u8 = 3;
pub const LIGHT_REAR_RIGHT: u8 = 4;
pub const LIGHT_MIDDLE_RIGHT: u8 = 5;
pub const NUM_UNDERLIGHTS: usize = 6;

// Motor identifiers.
pub const MOTOR_LEFT: u8 = 0;
pub const MOTOR_RIGHT: u8 = 1;
pub const NUM_MOTORS: usize = 2;

// Button input pins (pull-down: a high level means pressed).
pub const BUTTON_A_PIN: u8 = 5;
pub const BUTTON_B_PIN: u8 = 6;
pub const BUTTON_X_PIN: u8 = 16;
pub const BUTTON_Y_PIN: u8 = 24;

// Pins of the LEDs next to each button.
pub const LED_A_PIN: u8 = 23;
pub const LED_B_PIN: u8 = 22;
pub const LED_X_PIN: u8 = 17;
pub const LED_Y_PIN: u8 = 27;

// Motor driver pins.
pub const MOTOR_EN_PIN: u8 = 26;
pub const MOTOR_LEFT_P: u8 = 8;
pub const MOTOR_LEFT_N: u8 = 11;
pub const MOTOR_RIGHT_P: u8 = 10;
pub const MOTOR_RIGHT_N: u8 = 9;

// HC-SR04 ultrasonic ranger pins.
pub const ULTRA_TRIG_PIN: u8 = 13;
pub const ULTRA_ECHO_PIN: u8 = 25;

/// Fixed-point scale of speeds and brightness: `FULL_SCALE` stands for 1.0,
/// so a speed of 0.25 is 2500. A duty cycle is kept in hundredths of a
/// percent, on the same scale: 10000 is a 100% duty cycle.
pub const FULL_SCALE: i64 = 10_000;

/// PWM carrier of the motor direction lines, in Hz.
pub const MOTOR_PWM_HZ: u32 = 100;

/// PWM carrier of the button LEDs, in Hz.
pub const LED_PWM_HZ: u32 = 2000;

/// Interval between two polls of the buttons, in milliseconds.
pub const BUTTON_POLL_MS: u64 = 50;

/// Speed of sound, 343 m/s, which is 343 nanometres per nanosecond.
pub const SPEED_OF_SOUND_NM_PER_NS: u128 = 343;

/// How long the trigger is held low before a pulse, in microseconds.
pub const TRIGGER_SETTLE_US: u64 = 2;

/// Length of the trigger pulse, in microseconds.
pub const TRIGGER_PULSE_US: u64 = 10;

/// Timeout of a host's range reading, in milliseconds.
pub const RANGE_TIMEOUT_MS: u64 = 50;

/// Pulses a host's multi-sample range reading averages.
pub const RANGE_SAMPLES: u32 = 3;

/// Calibration offset taken off each pulse of a multi-sample reading, in ns.
pub const RANGE_OFFSET_NS: u64 = 190_000;

/// 7-bit I2C address of the SN3218 underlight driver.
pub const SN3218_ADDRESS: u16 = 0x54;

} // verus!
