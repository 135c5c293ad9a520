//! What every device driver has in common: the per-tick processing
//! contract, the error taxonomy, and the identified-driver records the
//! registry keeps.

use vstd::prelude::*;
use crate::autodetect::DriverBuild;
use crate::messages::{DriverState, RenderSettingsData};
use crate::telemetry::GyroscopeDataframeError;

verus! {

/// Most messages a driver drains from the bus in one tick. A drain is
/// meant to empty the queue; bounding it keeps every tick provably
/// terminating, and anything beyond the bound waits the few milliseconds
/// to the next tick.
pub const MAX_DRAIN_PER_TICK: u64 = 64;

/// The physical outputs of the vehicle rig, used to tag write commands and
/// write failures.
#[derive(Clone, Copy, Debug, PartialEq, Eq, Structural)]
pub enum ActuatorOutput {
    Steering,
    CamYaw,
    CamPitch,
    Throttle,
}

/// One physical write a driver decided on this tick; the caller performs
/// it and reports a failure tagged with the output.
#[derive(Clone, Copy, Debug, PartialEq, Eq, Structural)]
pub struct ActuatorWrite {
    pub output: ActuatorOutput,
    /// Servo position in degrees, motor throttle, or offset units.
    pub value: i32,
    /// True when the write sets a calibration offset rather than a position.
    pub is_offset: bool,
}

/// Why one driver's tick failed. Per-tick errors are collected by the
/// caller and logged; none is fatal to the process.
#[derive(Clone, Copy, Debug, PartialEq, Eq, Structural)]
pub enum DriverProcessError {
    /// Malformed wire input, with the precise classification.
    DataframeError(GyroscopeDataframeError),
    /// The port could not be read.
    IoError,
    /// A publish onto the bus was not accepted.
    BusError,
    /// A physical output refused a write, tagged with which one.
    SwarmError(ActuatorOutput),
}

/// Everything one driver tick exchanges with the world around it: inputs
/// sampled by the caller, the current persisted settings, and the physical
/// writes the driver decided on.
pub struct DriverTick {
    /// Milliseconds of elapsed process time.
    pub now_ms: u64,
    /// Bytes newly read from the telemetry serial port.
    pub serial_input: Vec<u8>,
    /// Raw analog pedal reading.
    pub pedal_sample: i32,
    /// Raw steering-wheel encoder value.
    pub wheel_rotation: i64,
    pub wheel_button_1: bool,
    pub wheel_button_2: bool,
    /// The persisted settings as currently on disk.
    pub config: RenderSettingsData,
    /// Set by a driver when `config` changed and must be persisted.
    pub config_dirty: bool,
    /// Physical writes decided this tick, in order.
    pub actuator_writes: Vec<ActuatorWrite>,
}

/// The error a failed physical write surfaces as: the caller that
/// performed a decided `ActuatorWrite` and saw the hardware refuse it
/// reports it tagged with the output that failed.
pub fn write_failure_error(w: &ActuatorWrite) -> (e: DriverProcessError)
    ensures
        e == DriverProcessError::SwarmError(w.output),
{
    DriverProcessError::SwarmError(w.output)
}

/// A driver kind identified during autodetection, paired with what it
/// takes to construct it. `None` means "known kind, not currently
/// detected"; membership is fixed at startup.
pub struct IdentifiedDeviceDriver {
    pub driver: Option<DriverBuild>,
    pub name: String,
}

impl IdentifiedDeviceDriver {
    /// The point-in-time presence snapshot of this driver kind.
    pub fn into(&self) -> (s: DriverState)
        ensures
            s.name_spec() == self.name@,
            s.is_online() == (self.driver is Some),
    {
        if self.driver.is_some() {
            DriverState::Online { name: self.name.clone() }
        } else {
            DriverState::Offline { name: self.name.clone() }
        }
    }
}

/// A component owning exclusive access to one device, exposing a uniform
/// per-tick operation: drain the bus, update state, decide outputs.
pub trait DeviceDriver {
    /// The internal invariant the driver's state keeps between ticks.
    spec fn wf(&self) -> bool;

    fn process(&mut self, tick: &mut DriverTick) -> (r: Result<(), DriverProcessError>)
        requires
            old(self).wf(),
        ensures
            final(self).wf(),
    ;
}

} // verus!
