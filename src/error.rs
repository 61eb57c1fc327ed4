use vstd::prelude::*;

verus! {

/// Which half of the echo pulse a ranging wait was in.
#[derive(Clone, Copy, Debug, PartialEq, Eq, Structural)]
pub enum EchoPhase {
    /// Waiting for the echo line to rise.
    Rise,
    /// Waiting for the echo line to fall.
    Fall,
}

/// One logical step of the SN3218 register protocol.
#[derive(Clone, Copy, Debug, PartialEq, Eq, Structural)]
pub enum BusStep {
    Reset,
    Enable,
    Disable,
    ChannelMask,
    Latch,
    PwmStart,
    PwmData,
}

/// What went wrong in a hardware transaction.
#[derive(Clone, Copy, Debug, PartialEq, Eq, Structural)]
pub enum Fault {
    /// An I2C write of the named protocol step failed.
    Bus(BusStep),
    /// A GPIO pin could not be claimed or driven.
    Pin,
    /// A range reading fell outside the band the sensor can measure.
    OutOfRange,
}

/// Errors of the hardware layer.
#[derive(Clone, Copy, Debug, PartialEq, Eq, Structural)]
pub enum HwError {
    /// An identifier (motor, button, LED, channel) or a mask out of range.
    InvalidArgument,
    /// The echo line did not change within the timeout.
    HardwareTimeout(EchoPhase),
    /// A GPIO or I2C transaction failed, or a reading was implausible.
    HardwareFault(Fault),
    /// A bus or device node is missing.
    DeviceUnavailable,
    /// A shared driver could not be locked.
    LockFailed,
    /// A caller's buffer cannot hold the data handed to it.
    BufferTooSmall,
}

} // verus!
