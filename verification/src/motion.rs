use vstd::prelude::*;

use crate::command::CarCommand;

verus! {

/// Largest duty-cycle percentage a wheel line accepts.
pub const MAX_SPEED: u8 = 100;

/// PWM switching frequency shared by all four wheel pairs, in hertz.
pub const PWM_FREQUENCY_HZ: u64 = 500;

/// The duty cycle applied for a requested speed. The documented speed domain
/// is 0 to 100; a request above it is clamped to `MAX_SPEED` so that the
/// duty-cycle outputs never see an out-of-range value.
pub open spec fn clamped(speed: u8) -> u8 {
    if speed <= MAX_SPEED {
        speed
    } else {
        MAX_SPEED
    }
}

/// PWM timing derived once at boot from the system clock; every wheel pair
/// shares one copy, so all four outputs switch at the same frequency.
#[derive(Clone, Copy, Debug, PartialEq, Eq, Structural)]
pub struct PwmConfig {
    /// System-clock divider that yields `PWM_FREQUENCY_HZ`.
    pub clock_divider: u64,
}

impl PwmConfig {
    /// Derive the shared PWM timing from the system clock frequency.
    pub fn new(clock_hz: u64) -> (r: PwmConfig)
        requires
            clock_hz >= PWM_FREQUENCY_HZ,
        ensures
            r.clock_divider == clock_hz / PWM_FREQUENCY_HZ,
    {
        PwmConfig { clock_divider: clock_hz / PWM_FREQUENCY_HZ }
    }
}

/// One actuator slot: two independent duty-cycle outputs driving the same
/// motor in opposite directions.
#[derive(Clone, Copy, Debug, PartialEq, Eq, Structural)]
pub struct Wheel {
    /// Duty cycle of the forward line, in percent.
    pub forward_line: u8,
    /// Duty cycle of the reverse line, in percent.
    pub reverse_line: u8,
}

impl Wheel {
    /// At most one line drives the motor at any instant, and both duty
    /// cycles are percentages. Nothing in the hardware enforces this; the
    /// three wheel operations do.
    pub open spec fn wf(self) -> bool {
        &&& self.forward_line <= MAX_SPEED
        &&& self.reverse_line <= MAX_SPEED
        &&& self.forward_line == 0 || self.reverse_line == 0
    }

    /// The wheel state that drives forward at the given (clamped) speed.
    pub open spec fn driving_forward(speed: u8) -> Wheel {
        Wheel { forward_line: clamped(speed), reverse_line: 0 }
    }

    /// The wheel state that drives backward at the given (clamped) speed.
    pub open spec fn driving_backward(speed: u8) -> Wheel {
        Wheel { forward_line: 0, reverse_line: clamped(speed) }
    }

    /// The unpowered wheel state.
    pub open spec fn stopped() -> Wheel {
        Wheel { forward_line: 0, reverse_line: 0 }
    }

    /// A wheel starts unpowered.
    pub fn new() -> (r: Wheel)
        ensures
            r == Wheel::stopped(),
            r.wf(),
    {
        Wheel { forward_line: 0, reverse_line: 0 }
    }

    /// Drive forward: the forward line carries the clamped speed and the
    /// reverse line is cut, whatever the wheel did before.
    pub fn forward(&mut self, speed: u8)
        ensures
            *final(self) == Wheel::driving_forward(speed),
            final(self).wf(),
    {
        self.forward_line = if speed <= MAX_SPEED {
            speed
        } else {
            MAX_SPEED
        };
        self.reverse_line = 0;
    }

    /// Drive backward: the mirror image of `forward`.
    pub fn backward(&mut self, speed: u8)
        ensures
            *final(self) == Wheel::driving_backward(speed),
            final(self).wf(),
    {
        self.forward_line = 0;
        self.reverse_line = if speed <= MAX_SPEED {
            speed
        } else {
            MAX_SPEED
        };
    }

    /// Cut both lines. The result does not depend on the prior state, so
    /// repeating the call changes nothing further.
    pub fn stop(&mut self)
        ensures
            *final(self) == Wheel::stopped(),
            final(self).wf(),
    {
        self.forward_line = 0;
        self.reverse_line = 0;
    }
}

/// The four-wheel differential-drive vehicle: sole owner of all wheel state.
/// Only `dispatch` writes the wheels, always all four at once.
#[derive(Clone, Copy, Debug, PartialEq, Eq, Structural)]
pub struct Car {
    pub front_left: Wheel,
    pub front_right: Wheel,
    pub rear_left: Wheel,
    pub rear_right: Wheel,
    /// The one PWM configuration shared by the four wheel pairs.
    pub pwm: PwmConfig,
}

impl Car {
    /// Every wheel obeys the single-active-line invariant.
    pub open spec fn wf(self) -> bool {
        &&& self.front_left.wf()
        &&& self.front_right.wf()
        &&& self.rear_left.wf()
        &&& self.rear_right.wf()
    }

    /// The wheel states a command puts the car in. Turns are tank turns:
    /// both left wheels run against both right wheels. The PWM configuration
    /// is fixed at boot and never rewritten.
    pub open spec fn after(self, c: CarCommand) -> Car {
        match c {
            CarCommand::Forward(s) => Car {
                front_left: Wheel::driving_forward(s),
                front_right: Wheel::driving_forward(s),
                rear_left: Wheel::driving_forward(s),
                rear_right: Wheel::driving_forward(s),
                pwm: self.pwm,
            },
            CarCommand::Backward(s) => Car {
                front_left: Wheel::driving_backward(s),
                front_right: Wheel::driving_backward(s),
                rear_left: Wheel::driving_backward(s),
                rear_right: Wheel::driving_backward(s),
                pwm: self.pwm,
            },
            CarCommand::TurnLeft(s) => Car {
                front_left: Wheel::driving_backward(s),
                front_right: Wheel::driving_forward(s),
                rear_left: Wheel::driving_backward(s),
                rear_right: Wheel::driving_forward(s),
                pwm: self.pwm,
            },
            CarCommand::TurnRight(s) => Car {
                front_left: Wheel::driving_forward(s),
                front_right: Wheel::driving_backward(s),
                rear_left: Wheel::driving_forward(s),
                rear_right: Wheel::driving_backward(s),
                pwm: self.pwm,
            },
            CarCommand::Stop => Car {
                front_left: Wheel::stopped(),
                front_right: Wheel::stopped(),
                rear_left: Wheel::stopped(),
                rear_right: Wheel::stopped(),
                pwm: self.pwm,
            },
        }
    }

    /// A car boots with all wheels unpowered and one shared PWM timing.
    pub fn new(pwm: PwmConfig) -> (r: Car)
        ensures
            r.front_left == Wheel::stopped(),
            r.front_right == Wheel::stopped(),
            r.rear_left == Wheel::stopped(),
            r.rear_right == Wheel::stopped(),
            r.pwm == pwm,
            r.wf(),
    {
        Car {
            front_left: Wheel::new(),
            front_right: Wheel::new(),
            rear_left: Wheel::new(),
            rear_right: Wheel::new(),
            pwm,
        }
    }

    /// Apply one command to all four wheels, per the differential-drive
    /// table. The new state depends only on the command and the shared PWM
    /// configuration, and is always well formed.
    pub fn dispatch(&mut self, c: &CarCommand)
        ensures
            *final(self) == old(self).after(*c),
            final(self).wf(),
    {
        match c {
            CarCommand::Forward(s) => {
                self.front_left.forward(*s);
                self.front_right.forward(*s);
                self.rear_left.forward(*s);
                self.rear_right.forward(*s);
            },
            CarCommand::Backward(s) => {
                self.front_left.backward(*s);
                self.front_right.backward(*s);
                self.rear_left.backward(*s);
                self.rear_right.backward(*s);
            },
            CarCommand::TurnLeft(s) => {
                self.front_left.backward(*s);
                self.front_right.forward(*s);
                self.rear_left.backward(*s);
                self.rear_right.forward(*s);
            },
            CarCommand::TurnRight(s) => {
                self.front_left.forward(*s);
                self.front_right.backward(*s);
                self.rear_left.forward(*s);
                self.rear_right.backward(*s);
            },
            CarCommand::Stop => {
                self.front_left.stop();
                self.front_right.stop();
                self.rear_left.stop();
                self.rear_right.stop();
            },
        }
    }
}

/// For every speed, the forward wheel state powers exactly the forward line
/// at the clamped speed, the backward state is its mirror image, and the
/// stopped state powers neither line.
pub proof fn lemma_wheel_lines(speed: u8)
    ensures
        Wheel::driving_forward(speed).forward_line == clamped(speed),
        Wheel::driving_forward(speed).reverse_line == 0,
        Wheel::driving_backward(speed).reverse_line == clamped(speed),
        Wheel::driving_backward(speed).forward_line == 0,
        Wheel::stopped().forward_line == 0,
        Wheel::stopped().reverse_line == 0,
        speed <= MAX_SPEED ==> Wheel::driving_forward(speed).forward_line == speed,
        speed <= MAX_SPEED ==> Wheel::driving_backward(speed).reverse_line == speed,
        Wheel::driving_forward(speed).wf(),
        Wheel::driving_backward(speed).wf(),
        Wheel::stopped().wf(),
{
}

/// No command rewrites the PWM timing: the frequency configured at boot is
/// shared by all four wheel pairs for the life of the process, so the
/// outputs never switch at mismatched frequencies. And every commanded
/// state keeps the single-active-line invariant on every wheel.
pub proof fn lemma_dispatch_keeps_pwm_and_wf(car: Car, c: CarCommand)
    ensures
        car.after(c).pwm == car.pwm,
        car.after(c).wf(),
{
}

/// The two turns mirror each other wheel for wheel across the vehicle's
/// centre line, and each turn runs one side exactly as `Forward` would and
/// the other exactly as `Backward` would.
pub proof fn lemma_turns_mirrored(car: Car, s: u8)
    ensures
        car.after(CarCommand::TurnLeft(s)).front_left == car.after(
            CarCommand::TurnRight(s),
        ).front_right,
        car.after(CarCommand::TurnLeft(s)).front_right == car.after(
            CarCommand::TurnRight(s),
        ).front_left,
        car.after(CarCommand::TurnLeft(s)).rear_left == car.after(
            CarCommand::TurnRight(s),
        ).rear_right,
        car.after(CarCommand::TurnLeft(s)).rear_right == car.after(
            CarCommand::TurnRight(s),
        ).rear_left,
        car.after(CarCommand::TurnLeft(s)).front_left == car.after(
            CarCommand::Backward(s),
        ).front_left,
        car.after(CarCommand::TurnLeft(s)).rear_left == car.after(CarCommand::Backward(s)).rear_left,
        car.after(CarCommand::TurnLeft(s)).front_right == car.after(
            CarCommand::Forward(s),
        ).front_right,
        car.after(CarCommand::TurnLeft(s)).rear_right == car.after(CarCommand::Forward(s)).rear_right,
        car.after(CarCommand::TurnRight(s)).front_left == car.after(
            CarCommand::Forward(s),
        ).front_left,
        car.after(CarCommand::TurnRight(s)).rear_left == car.after(CarCommand::Forward(s)).rear_left,
        car.after(CarCommand::TurnRight(s)).front_right == car.after(
            CarCommand::Backward(s),
        ).front_right,
        car.after(CarCommand::TurnRight(s)).rear_right == car.after(
            CarCommand::Backward(s),
        ).rear_right,
{
}

} // verus!
