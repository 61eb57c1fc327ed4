use vstd::prelude::*;

use crate::config::{FULL_SCALE, MOTOR_LEFT, MOTOR_PWM_HZ, MOTOR_RIGHT};
use crate::error::HwError;
use crate::utils::{abs_spec, clamp, clamp_spec};

verus! {

/// Duty cycles `(p, n)` of a motor's two direction lines for a speed.
///
/// The speed is clamped to `[-FULL_SCALE, FULL_SCALE]` and its magnitude is
/// the duty cycle of one line; the other line is held at zero. The left motor
/// is wired with the opposite polarity, so a positive speed drives its `n`
/// line where it drives the right motor's `p` line.
pub open spec fn line_duties(motor: u8, speed: int) -> (int, int) {
    let s = clamp_spec(speed, -FULL_SCALE, FULL_SCALE as int);
    let d = abs_spec(s);
    if motor == MOTOR_LEFT {
        if s > 0 {
            (0, d)
        } else {
            (d, 0)
        }
    } else {
        if s > 0 {
            (d, 0)
        } else {
            (0, d)
        }
    }
}

/// Duty cycles `(p, n)` when a motor is driven in an explicit direction:
/// `forward` drives `p`, otherwise `n`, with the clamped magnitude of `speed`.
pub open spec fn direction_duties(forward: bool, speed: int) -> (int, int) {
    let d = clamp_spec(abs_spec(speed), 0, FULL_SCALE as int);
    if forward {
        (d, 0)
    } else {
        (0, d)
    }
}

/// What the motor driver is told: the shared enable line and the duty cycle
/// of each of the four direction lines, in hundredths of a percent.
#[derive(Clone, Copy, Debug, PartialEq, Eq, Structural)]
pub struct Motors {
    pub motor_en: bool,
    pub motor_left_p: u32,
    pub motor_left_n: u32,
    pub motor_right_p: u32,
    pub motor_right_n: u32,
    /// PWM carrier of the direction lines, in Hz.
    pub frequency: u32,
}

impl Motors {
    /// Every duty cycle lies in `[0, FULL_SCALE]`.
    pub open spec fn wf(self) -> bool {
        &&& self.motor_left_p <= FULL_SCALE
        &&& self.motor_left_n <= FULL_SCALE
        &&& self.motor_right_p <= FULL_SCALE
        &&& self.motor_right_n <= FULL_SCALE
    }

    /// The state with `motor`'s lines set to `(p, n)` and the enable line high.
    pub open spec fn with_lines(self, motor: u8, p: int, n: int) -> Motors {
        if motor == MOTOR_LEFT {
            Motors { motor_en: true, motor_left_p: p as u32, motor_left_n: n as u32, ..self }
        } else {
            Motors { motor_en: true, motor_right_p: p as u32, motor_right_n: n as u32, ..self }
        }
    }

    /// The state after driving `motor` at `speed`.
    pub open spec fn driven(self, motor: u8, speed: int) -> Motors {
        self.with_lines(motor, line_duties(motor, speed).0, line_duties(motor, speed).1)
    }

    /// The state after driving the left motor at `left` and the right one at `right`.
    pub open spec fn with_speeds(self, left: int, right: int) -> Motors {
        self.driven(MOTOR_LEFT, left).driven(MOTOR_RIGHT, right)
    }

    /// The state with the enable line low and every line at zero duty.
    pub open spec fn disabled(self) -> Motors {
        Motors {
            motor_en: false,
            motor_left_p: 0,
            motor_left_n: 0,
            motor_right_p: 0,
            motor_right_n: 0,
            ..self
        }
    }

    /// The driver at start-up: enable line low, all lines at zero duty, 100 Hz.
    pub fn new() -> (r: Motors)
        ensures
            r.wf(),
            !r.motor_en,
            r.motor_left_p == 0 && r.motor_left_n == 0,
            r.motor_right_p == 0 && r.motor_right_n == 0,
            r.frequency == MOTOR_PWM_HZ,
    {
        Motors {
            motor_en: false,
            motor_left_p: 0,
            motor_left_n: 0,
            motor_right_p: 0,
            motor_right_n: 0,
            frequency: MOTOR_PWM_HZ,
        }
    }

    /// Drives one motor at a signed speed, clamped to `[-FULL_SCALE, FULL_SCALE]`.
    /// An unknown motor is rejected and nothing changes.
    pub fn set_motor_speed(&mut self, motor: u8, speed: i64) -> (r: Result<(), HwError>)
        ensures
            (motor == MOTOR_LEFT || motor == MOTOR_RIGHT) ==> r is Ok && *final(self) == old(
                self,
            ).driven(motor, speed as int),
            !(motor == MOTOR_LEFT || motor == MOTOR_RIGHT) ==> r == Err::<(), HwError>(
                HwError::InvalidArgument,
            ) && *final(self) == *old(self),
            old(self).wf() ==> final(self).wf(),
    {
        if motor != MOTOR_LEFT && motor != MOTOR_RIGHT {
            return Err(HwError::InvalidArgument);
        }
        let s = clamp(speed, -FULL_SCALE, FULL_SCALE);
        let duty: u32 = if s < 0 {
            (-s) as u32
        } else {
            s as u32
        };
        self.motor_en = true;
        let forward = s > 0;
        // The left motor's polarity is the reverse of the right one's.
        let (p, n): (u32, u32) = if (motor == MOTOR_LEFT) != forward {
            (duty, 0)
        } else {
            (0, duty)
        };
        if motor == MOTOR_LEFT {
            self.motor_left_p = p;
            self.motor_left_n = n;
        } else {
            self.motor_right_p = p;
            self.motor_right_n = n;
        }
        Ok(())
    }

    /// Enable line low and every direction line at zero duty: the motors coast.
    pub fn disable_motors(&mut self) -> (r: Result<(), HwError>)
        ensures
            r is Ok,
            *final(self) == old(self).disabled(),
            final(self).wf(),
    {
        self.motor_en = false;
        self.motor_left_p = 0;
        self.motor_left_n = 0;
        self.motor_right_p = 0;
        self.motor_right_n = 0;
        Ok(())
    }

    pub fn stop(&mut self) -> (r: Result<(), HwError>)
        ensures
            r is Ok,
            *final(self) == old(self).with_speeds(0, 0),
            old(self).wf() ==> final(self).wf(),
    {
        self.set_motor_speeds(0, 0)
    }

    pub fn forward(&mut self, speed: i64) -> (r: Result<(), HwError>)
        ensures
            r is Ok,
            *final(self) == old(self).with_speeds(speed as int, speed as int),
            old(self).wf() ==> final(self).wf(),
    {
        self.set_motor_speeds(speed, speed)
    }

    pub fn backward(&mut self, speed: i64) -> (r: Result<(), HwError>)
        ensures
            r is Ok,
            *final(self) == old(self).with_speeds(-speed, -speed),
            old(self).wf() ==> final(self).wf(),
    {
        let s = clamp(speed, -FULL_SCALE, FULL_SCALE);
        proof {
            lemma_negated_clamp_drives_alike(*self, MOTOR_LEFT, speed as int);
            lemma_negated_clamp_drives_alike(
                self.driven(MOTOR_LEFT, -speed),
                MOTOR_RIGHT,
                speed as int,
            );
        }
        self.set_motor_speeds(-s, -s)
    }

    pub fn turn_left(&mut self, speed: i64) -> (r: Result<(), HwError>)
        ensures
            r is Ok,
            *final(self) == old(self).with_speeds(-speed, speed as int),
            old(self).wf() ==> final(self).wf(),
    {
        let s = clamp(speed, -FULL_SCALE, FULL_SCALE);
        proof {
            lemma_negated_clamp_drives_alike(*self, MOTOR_LEFT, speed as int);
        }
        self.set_motor_speeds(-s, speed)
    }

    pub fn turn_right(&mut self, speed: i64) -> (r: Result<(), HwError>)
        ensures
            r is Ok,
            *final(self) == old(self).with_speeds(speed as int, -speed),
            old(self).wf() ==> final(self).wf(),
    {
        let s = clamp(speed, -FULL_SCALE, FULL_SCALE);
        proof {
            lemma_negated_clamp_drives_alike(
                self.driven(MOTOR_LEFT, speed as int),
                MOTOR_RIGHT,
                speed as int,
            );
        }
        self.set_motor_speeds(speed, -s)
    }

    /// Drives the left and right motors independently.
    pub fn set_motor_speeds(&mut self, left_speed: i64, right_speed: i64) -> (r: Result<
        (),
        HwError,
    >)
        ensures
            r is Ok,
            *final(self) == old(self).with_speeds(left_speed as int, right_speed as int),
            old(self).wf() ==> final(self).wf(),
    {
        let _ = self.set_motor_speed(MOTOR_LEFT, left_speed);
        self.set_motor_speed(MOTOR_RIGHT, right_speed)
    }

    /// Drives one motor in an explicit direction, at the clamped magnitude of
    /// `speed`; `direction` true drives the `p` line. No polarity correction
    /// is made here. An unknown motor is rejected and nothing changes.
    pub fn set_motor_direction(&mut self, motor: u8, direction: bool, speed: i64) -> (r: Result<
        (),
        HwError,
    >)
        ensures
            (motor == MOTOR_LEFT || motor == MOTOR_RIGHT) ==> r is Ok && *final(self) == old(
                self,
            ).with_lines(
                motor,
                direction_duties(direction, speed as int).0,
                direction_duties(direction, speed as int).1,
            ),
            !(motor == MOTOR_LEFT || motor == MOTOR_RIGHT) ==> r == Err::<(), HwError>(
                HwError::InvalidArgument,
            ) && *final(self) == *old(self),
            old(self).wf() ==> final(self).wf(),
    {
        if motor != MOTOR_LEFT && motor != MOTOR_RIGHT {
            return Err(HwError::InvalidArgument);
        }
        let s = clamp(speed, -FULL_SCALE, FULL_SCALE);
        let duty: u32 = if s < 0 {
            (-s) as u32
        } else {
            s as u32
        };
        self.motor_en = true;
        let (p, n): (u32, u32) = if direction {
            (duty, 0)
        } else {
            (0, duty)
        };
        if motor == MOTOR_LEFT {
            self.motor_left_p = p;
            self.motor_left_n = n;
        } else {
            self.motor_right_p = p;
            self.motor_right_n = n;
        }
        Ok(())
    }
}

/// Driving a motor at the negation of a clamped speed is driving it at the
/// negation of the speed itself.
proof fn lemma_negated_clamp_drives_alike(m: Motors, motor: u8, speed: int)
    ensures
        m.driven(motor, -clamp_spec(speed, -FULL_SCALE, FULL_SCALE as int)) == m.driven(
            motor,
            -speed,
        ),
{
}

/// For any nonzero speed exactly one of a motor's two direction lines carries
/// a duty cycle, whose magnitude is `|speed|` held to `FULL_SCALE`; the left
/// motor puts a speed on the opposite line from the right motor.
pub proof fn lemma_one_line_driven(m: Motors, speed: int)
    requires
        speed != 0,
    ensures
        ({
            let l = m.driven(MOTOR_LEFT, speed);
            let r = m.driven(MOTOR_RIGHT, speed);
            &&& (l.motor_left_p != 0) != (l.motor_left_n != 0)
            &&& (r.motor_right_p != 0) != (r.motor_right_n != 0)
            &&& l.motor_left_p + l.motor_left_n == clamp_spec(
                abs_spec(speed),
                0,
                FULL_SCALE as int,
            )
            &&& r.motor_right_p + r.motor_right_n == clamp_spec(
                abs_spec(speed),
                0,
                FULL_SCALE as int,
            )
            &&& l.motor_left_p == r.motor_right_n
            &&& l.motor_left_n == r.motor_right_p
            &&& l.motor_en && r.motor_en
        }),
{
}

} // verus!
