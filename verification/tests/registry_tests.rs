use ft_vr::autodetect::{
    AutodetectDeviceDriverList, DeviceDriverType, DriverBuild, SerialPortInfo, contains_sub,
};
use ft_vr::messages::{DriverState, VrMessage};
use ft_vr::registry::autodetect_input_devices;

fn port(name: &str, vendor: Option<&str>) -> SerialPortInfo {
    SerialPortInfo { port_name: name.to_string(), vendor: vendor.map(|v| v.to_string()) }
}

fn state_name(s: &DriverState) -> (&String, bool) {
    match s {
        DriverState::Online { name } => (name, true),
        DriverState::Offline { name } => (name, false),
    }
}

#[test]
fn com_port_never_yields_a_driver() {
    let bus: pub_sub::PubSub<VrMessage> = pub_sub::PubSub::new();
    let ports = vec![port("COM3", Some("Espressif")), port("COM7", Some("1a86"))];
    let devs = autodetect_input_devices(&ports, &bus);
    for s in devs.driver_states() {
        let (_, online) = state_name(&s);
        assert!(!online);
    }
}

#[test]
fn sensor_vendor_yields_the_telemetry_driver() {
    let bus: pub_sub::PubSub<VrMessage> = pub_sub::PubSub::new();
    let ports = vec![port("/dev/ttyUSB0", Some("Espressif"))];
    let devs = autodetect_input_devices(&ports, &bus);
    let states = devs.driver_states();
    let names: Vec<(String, bool)> =
        states.iter().map(|s| { let (n, o) = state_name(s); (n.clone(), o) }).collect();
    assert_eq!(
        names,
        vec![
            ("Car".to_string(), false),
            ("HeadsetGyroscope".to_string(), true),
            ("SteeringWheel".to_string(), false)
        ]
    );
}

#[test]
fn hub_vendor_yields_the_rig_drivers() {
    let bus: pub_sub::PubSub<VrMessage> = pub_sub::PubSub::new();
    let ports = vec![port("/dev/ttyACM1", Some("1a86"))];
    let devs = autodetect_input_devices(&ports, &bus);
    let states = devs.driver_states();
    let online: Vec<bool> = states.iter().map(|s| state_name(s).1).collect();
    assert_eq!(online, vec![true, false, true]);
}

#[test]
fn unknown_vendor_is_ignored() {
    let bus: pub_sub::PubSub<VrMessage> = pub_sub::PubSub::new();
    let ports = vec![port("/dev/ttyUSB0", Some("SomeoneElse")), port("/dev/ttyUSB1", None)];
    let devs = autodetect_input_devices(&ports, &bus);
    assert!(devs.driver_states().iter().all(|s| !state_name(s).1));
}

#[test]
fn heartbeat_lists_every_kind_once_and_stays_stable() {
    let bus: pub_sub::PubSub<VrMessage> = pub_sub::PubSub::new();
    let observer = bus.subscribe();
    let ports = vec![port("/dev/ttyUSB0", Some("Espressif"))];
    let mut devs = autodetect_input_devices(&ports, &bus);
    assert_eq!(devs.heartbeat(500).expect("heartbeat"), false);
    assert!(observer.try_recv().is_err());
    assert_eq!(devs.heartbeat(2000).expect("heartbeat"), true);
    let first = match observer.try_recv().expect("update") {
        VrMessage::DriverStateUpdate { states } => states,
        other => panic!("unexpected message: {:?}", other),
    };
    let mut names: Vec<String> = first.iter().map(|s| state_name(s).0.clone()).collect();
    assert_eq!(names.len(), 3);
    let before_dedup = names.clone();
    names.dedup();
    assert_eq!(names, before_dedup);  // every kind exactly once
    assert_eq!(
        names,
        vec!["Car".to_string(), "HeadsetGyroscope".to_string(), "SteeringWheel".to_string()]
    );
    // 1500 ms later: published again with the same names
    assert_eq!(devs.heartbeat(3600).expect("heartbeat"), true);
    let second = match observer.try_recv().expect("update") {
        VrMessage::DriverStateUpdate { states } => states,
        other => panic!("unexpected message: {:?}", other),
    };
    let names2: Vec<String> = second.iter().map(|s| state_name(s).0.clone()).collect();
    assert_eq!(names, names2);
}

#[test]
fn duplicate_registration_keeps_the_first() {
    let mut list = AutodetectDeviceDriverList::new();
    list.push(
        DeviceDriverType::HeadsetGyroscope,
        DriverBuild::HeadsetGyroscope { port_name: "/dev/ttyUSB0".to_string() },
    );
    list.push(
        DeviceDriverType::HeadsetGyroscope,
        DriverBuild::HeadsetGyroscope { port_name: "/dev/ttyUSB1".to_string() },
    );
    let finished = list.finish();
    assert_eq!(finished.len(), 3);
    match &finished[1].driver {
        Some(DriverBuild::HeadsetGyroscope { port_name }) => {
            assert_eq!(port_name, "/dev/ttyUSB0")
        },
        other => panic!("expected the first registration, got {:?}", other),
    }
}

#[test]
fn kind_names_render_stably() {
    assert_eq!(DeviceDriverType::HeadsetGyroscope.to_string(), "HeadsetGyroscope");
    assert_eq!(DeviceDriverType::SteeringWheel.to_string(), "SteeringWheel");
    assert_eq!(DeviceDriverType::Car.to_string(), "Car");
}

#[test]
fn substring_search_matches_the_usb_patterns() {
    assert!(contains_sub("/dev/ttyUSB0", "ttyUSB"));
    assert!(contains_sub("/dev/ttyACM2", "ttyACM"));
    assert!(!contains_sub("COM3", "ttyUSB"));
    assert!(!contains_sub("COM3", "ttyACM"));
    assert!(contains_sub("abc", ""));
}
