use vstd::prelude::*;

verus! {

/// One motion instruction for the vehicle.
///
/// Four variants carry a requested duty-cycle percentage; the documented
/// speed domain is 0 to 100 and the motion controller clamps anything above
/// that to 100.
#[derive(Clone, Copy, Debug, PartialEq, Eq, Structural)]
pub enum CarCommand {
    /// Drive all four wheels forward at the given speed.
    Forward(u8),
    /// Drive all four wheels backward at the given speed.
    Backward(u8),
    /// Tank turn left: left side backward, right side forward.
    TurnLeft(u8),
    /// Tank turn right: left side forward, right side backward.
    TurnRight(u8),
    /// Cut power to every wheel.
    Stop,
}

} // verus!
