//! The driver registry: one autodetection scan at startup fixes the set
//! of known driver kinds, and a one-second heartbeat publishes the
//! online/offline state of every kind — the only way presence of hardware
//! becomes visible to the rest of the system.

use vstd::prelude::*;
use crate::autodetect::{
    AutodetectDeviceDriverList, DeviceDriverType, DriverBuild, SerialPortInfo, contains_sub,
    has_name, lemma_kind_names_distinct, port_yields,
};
use crate::bus::{bus_clone, bus_send, bus_subscribe};
use crate::drivers::{DriverProcessError, IdentifiedDeviceDriver};
use crate::messages::{DriverState, VrMessage};

verus! {

/// Milliseconds between two heartbeat publishes.
pub const HEARTBEAT_INTERVAL_MS: u64 = 1000;

/// The registry: every known driver kind with its detection outcome, the
/// bus handle the heartbeat publishes on, and the heartbeat clock.
pub struct InputDevices {
    pub drivers: Vec<IdentifiedDeviceDriver>,
    pub bus: pub_sub::PubSub<VrMessage>,
    pub last_heartbeat_ms: u64,
}

impl InputDevices {
    /// The registry holds exactly one entry per known kind, sorted by name.
    pub open spec fn wf(&self) -> bool {
        &&& self.drivers@.len() == 3
    &&& self.drivers@[0].name@ == DeviceDriverType::Car.name_spec()
        &&& self.drivers@[1].name@ == DeviceDriverType::HeadsetGyroscope.name_spec()
        &&& self.drivers@[2].name@ == DeviceDriverType::SteeringWheel.name_spec()
    }

    /// One snapshot per registered kind, in registry order: online exactly
    /// when the kind was detected.
    pub fn driver_states(&self) -> (r: Vec<DriverState>)
        ensures
            r@.len() == self.drivers@.len(),
            forall|i: int|
                0 <= i < r@.len() ==> (#[trigger] r@[i]).name_spec() == self.drivers@[i].name@
                    && r@[i].is_online() == (self.drivers@[i].driver is Some),
    {
        let mut r: Vec<DriverState> = Vec::new();
        let mut i: usize = 0;
        while i < self.drivers.len()
            invariant
                i <= self.drivers@.len(),
                r@.len() == i,
                forall|p: int|
                    0 <= p < i ==> (#[trigger] r@[p]).name_spec() == self.drivers@[p].name@
                        && r@[p].is_online() == (self.drivers@[p].driver is Some),
            decreases self.drivers@.len() - i,
        {
            let s = IdentifiedDeviceDriver::into(&self.drivers[i]);
            r.push(s);
            i += 1;
        }
        r
    }

    /// Publish the full presence list when the heartbeat interval has
    /// passed; report whether one went out and whether the bus took it.
    pub fn heartbeat(&mut self, now_ms: u64) -> (r: Result<bool, DriverProcessError>)
        requires
            old(self).wf(),
        ensures
            final(self).wf(),
            final(self).drivers@ == old(self).drivers@,
            ({
                let due = now_ms >= old(self).last_heartbeat_ms && now_ms - old(
                    self,
                ).last_heartbeat_ms > HEARTBEAT_INTERVAL_MS;
                if due {
                    final(self).last_heartbeat_ms == now_ms && (r == Ok::<
                        bool,
                        DriverProcessError,
                    >(true) || r == Err::<bool, DriverProcessError>(DriverProcessError::BusError))
                } else {
                    final(self).last_heartbeat_ms == old(self).last_heartbeat_ms && r == Ok::<
                        bool,
                        DriverProcessError,
                    >(false)
                }
            }),
    {
        if !(now_ms >= self.last_heartbeat_ms && now_ms - self.last_heartbeat_ms
            > HEARTBEAT_INTERVAL_MS) {
            return Ok(false);
        }
        self.last_heartbeat_ms = now_ms;
        let states = self.driver_states();
        if bus_send(&self.bus, VrMessage::DriverStateUpdate { states }) {
            Ok(true)
        } else {
            Err(DriverProcessError::BusError)
        }
    }
}

/// Heartbeat completeness: a well-formed registry holds, for every driver
/// kind in the closed enumeration, exactly one entry — so every snapshot
/// list `driver_states` derives carries each kind exactly once, and the
/// set of names never changes between publishes.
pub proof fn lemma_heartbeat_completeness(devs: &InputDevices)
    requires
        devs.wf(),
    ensures
        forall|k: DeviceDriverType|
            exists|i: int|
                0 <= i < devs.drivers@.len() && devs.drivers@[i].name@ == (#[trigger] k.name_spec()),
        forall|i: int, j: int|
            0 <= i < j < devs.drivers@.len() ==> devs.drivers@[i].name@ != devs.drivers@[j].name@,
{
    lemma_kind_names_distinct();
    assert forall|k: DeviceDriverType|
        exists|i: int|
            0 <= i < devs.drivers@.len() && devs.drivers@[i].name@ == (
            #[trigger] k.name_spec()) by {
        match k {
            DeviceDriverType::Car => {
                assert(devs.drivers@[0].name@ == k.name_spec());
            },
            DeviceDriverType::HeadsetGyroscope => {
                assert(devs.drivers@[1].name@ == k.name_spec());
            },
            DeviceDriverType::SteeringWheel => {
                assert(devs.drivers@[2].name@ == k.name_spec());
            },
        }
    }
}

/// One scan over the enumerated ports: ports without a USB-serial name are
/// skipped whatever their vendor; the sensor vendor yields the telemetry
/// driver for that port; the hub vendor yields the rig drivers. Every
/// known kind ends up registered, detected or not.
pub fn autodetect_input_devices(
    ports: &Vec<SerialPortInfo>,
    bus: &pub_sub::PubSub<VrMessage>,
) -> (r: InputDevices)
    ensures
        r.wf(),
        r.last_heartbeat_ms == 0,
        forall|k: int|
            0 <= k < 3 ==> ((#[trigger] r.drivers@[k].driver) is Some <==> exists|p: int|
                0 <= p < ports@.len() && port_yields(
                    #[trigger] ports@[p],
                    kind_at_sorted_index(k),
                )),
{
    let mut list = AutodetectDeviceDriverList::new();
    let mut i: usize = 0;
    while i < ports.len()
        invariant
            i <= ports@.len(),
            crate::autodetect::detect_list_wf(list.view()),
            forall|k: DeviceDriverType|
                has_name(list.view(), #[trigger] k.name_spec()) <==> exists|p: int|
                    0 <= p < i && port_yields(#[trigger] ports@[p], k),
        decreases ports@.len() - i,
    {
        let ghost pre = list.view();
        classify_port(&mut list, &ports[i]);
        proof {
            assert forall|k: DeviceDriverType|
                has_name(list.view(), #[trigger] k.name_spec()) <==> exists|p: int|
                    0 <= p < i + 1 && port_yields(#[trigger] ports@[p], k) by {
                if has_name(list.view(), k.name_spec()) {
                    if has_name(pre, k.name_spec()) {
                        let w = choose|p: int|
                            0 <= p < i && port_yields(#[trigger] ports@[p], k);
                        assert(port_yields(ports@[w], k));
                    } else {
                        assert(port_yields(ports@[i as int], k));
                    }
                }
                if exists|p: int| 0 <= p < i + 1 && port_yields(#[trigger] ports@[p], k) {
                    let w = choose|p: int|
                        0 <= p < i + 1 && port_yields(#[trigger] ports@[p], k);
                    if w < i {
                        assert(exists|p: int|
                            0 <= p < i && port_yields(#[trigger] ports@[p], k));
                    }
                }
            }
        }
        i += 1;
    }
    let drivers = list.finish();
    InputDevices { drivers, bus: bus_clone(bus), last_heartbeat_ms: 0 }
}

/// Classify one enumerated port and register whatever drivers it makes the
/// case for.
fn classify_port(list: &mut AutodetectDeviceDriverList, port: &SerialPortInfo)
    requires
        crate::autodetect::detect_list_wf(old(list).view()),
    ensures
        crate::autodetect::detect_list_wf(final(list).view()),
        forall|k: DeviceDriverType|
            has_name(final(list).view(), #[trigger] k.name_spec()) <==> (has_name(
                old(list).view(),
                k.name_spec(),
            ) || port_yields(*port, k)),
{
    proof {
        lemma_kind_names_distinct();
    }
    let usb = contains_sub(port.port_name.as_str(), "ttyUSB") || contains_sub(
        port.port_name.as_str(),
        "ttyACM",
    );
    let vendor_sensor: bool;
    let vendor_hub: bool;
    match &port.vendor {
        Some(v) => {
            let espressif = String::from_str("Espressif");
            let hub = String::from_str("1a86");
            vendor_sensor = v.eq(&espressif);
            vendor_hub = v.eq(&hub);
        },
        None => {
            vendor_sensor = false;
            vendor_hub = false;
        },
    }
    proof {
        assert((usb && vendor_sensor) == port_yields(
            *port,
            DeviceDriverType::HeadsetGyroscope,
        ));
        assert((usb && vendor_hub) == port_yields(*port, DeviceDriverType::SteeringWheel));
        assert((usb && vendor_hub) == port_yields(*port, DeviceDriverType::Car));
    }
    if usb && vendor_sensor {
        list.push(
            DeviceDriverType::HeadsetGyroscope,
            DriverBuild::HeadsetGyroscope { port_name: port.port_name.clone() },
        );
    }
    if usb && vendor_hub {
        list.push(
            DeviceDriverType::SteeringWheel,
            DriverBuild::SteeringWheel { port_name: port.port_name.clone() },
        );
        list.push(
            DeviceDriverType::Car,
            DriverBuild::Car { port_name: port.port_name.clone() },
        );
    }
    proof {
        assert forall|k: DeviceDriverType|
            has_name(list.view(), #[trigger] k.name_spec()) <==> (has_name(
                old(list).view(),
                k.name_spec(),
            ) || port_yields(*port, k)) by {
            match k {
                DeviceDriverType::HeadsetGyroscope => {
                },
                DeviceDriverType::SteeringWheel => {
                },
                DeviceDriverType::Car => {
                },
            }
        }
    }
}

/// The kind standing at one index of the name-sorted registry.
pub open spec fn kind_at_sorted_index(k: int) -> DeviceDriverType {
    if k == 0 {
        DeviceDriverType::Car
    } else if k == 1 {
        DeviceDriverType::HeadsetGyroscope
    } else {
        DeviceDriverType::SteeringWheel
    }
}

} // verus!
