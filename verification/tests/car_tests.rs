use ft_vr::car::CarDriver;
use ft_vr::drivers::{ActuatorOutput, DeviceDriver, DriverTick};
use ft_vr::messages::{Interface, RenderSettingsData, ServoConfig, VrMessage};

fn fresh_tick(now_ms: u64) -> DriverTick {
    DriverTick {
        now_ms,
        serial_input: Vec::new(),
        pedal_sample: 0,
        wheel_rotation: 0,
        wheel_button_1: false,
        wheel_button_2: false,
        config: RenderSettingsData::default(),
        config_dirty: false,
        actuator_writes: Vec::new(),
    }
}

fn reading(yaw: i64, pitch: i64) -> VrMessage {
    VrMessage::GyroscopeReading { yaw, pitch, roll: 0, temperature: 0 }
}

#[test]
fn open_interface_suppresses_position_writes() {
    let bus: pub_sub::PubSub<VrMessage> = pub_sub::PubSub::new();
    let mut car = CarDriver::new(&bus);
    bus.send(VrMessage::ShowRenderedInterface {
        interface: Interface::InputNumberAndConfirm { text: "PIN: ".to_string() },
    })
    .expect("send");
    // the smoothed input state changes while the interface is open
    for _ in 0..5 {
        bus.send(reading(1_500_000, 1_500_000)).expect("send");
    }
    bus.send(VrMessage::WheelState {
        rotation: 100,
        left_button: false,
        right_button: false,
        flipped: false,
    })
    .expect("send");
    let mut tick = fresh_tick(10_000);
    car.process(&mut tick).expect("tick");
    assert!(car.interface_open);
    assert!(tick.actuator_writes.is_empty());
    // camera targets were not recomputed while the interface was open
    assert_eq!(car.final_yaw, 0);
    // once confirmed, the next tick writes the pending targets
    bus.send(VrMessage::InterfaceConfirm { data: 4 }).expect("send");
    let mut tick2 = fresh_tick(20_000);
    car.process(&mut tick2).expect("tick");
    assert!(!car.interface_open);
    assert!(!tick2.actuator_writes.is_empty());
}

#[test]
fn smoothed_camera_targets_reach_the_servo_range() {
    let bus: pub_sub::PubSub<VrMessage> = pub_sub::PubSub::new();
    let mut car = CarDriver::new(&bus);
    for _ in 0..5 {
        bus.send(reading(1_500_000, -1_500_000)).expect("send");
    }
    let mut tick = fresh_tick(10_000);
    car.process(&mut tick).expect("tick");
    // 1.5 rad smoothed maps onto the 90 degree servo limit
    assert_eq!(car.final_yaw, 90);
    assert_eq!(car.final_pitch, -90);
    let yaw_write = tick
        .actuator_writes
        .iter()
        .find(|w| w.output == ActuatorOutput::CamYaw && !w.is_offset)
        .expect("yaw write");
    assert_eq!(yaw_write.value, 90);
}

#[test]
fn unchanged_targets_are_not_rewritten() {
    let bus: pub_sub::PubSub<VrMessage> = pub_sub::PubSub::new();
    let mut car = CarDriver::new(&bus);
    for _ in 0..5 {
        bus.send(reading(1_500_000, 0)).expect("send");
    }
    let mut tick = fresh_tick(10_000);
    car.process(&mut tick).expect("tick");
    assert!(!tick.actuator_writes.is_empty());
    // same targets, later tick: nothing to write
    let mut tick2 = fresh_tick(20_000);
    car.process(&mut tick2).expect("tick");
    assert!(tick2.actuator_writes.is_empty());
}

#[test]
fn write_interval_is_respected() {
    let bus: pub_sub::PubSub<VrMessage> = pub_sub::PubSub::new();
    let mut car = CarDriver::new(&bus);
    for _ in 0..5 {
        bus.send(reading(1_500_000, 0)).expect("send");
    }
    // only 100 ms since the last write: targets change but nothing is written
    let mut tick = fresh_tick(100);
    car.process(&mut tick).expect("tick");
    assert!(tick.actuator_writes.is_empty());
}

#[test]
fn wheel_state_maps_steering_and_reverse() {
    let bus: pub_sub::PubSub<VrMessage> = pub_sub::PubSub::new();
    let mut car = CarDriver::new(&bus);
    bus.send(VrMessage::WheelState {
        rotation: 100,
        left_button: true,
        right_button: false,
        flipped: false,
    })
    .expect("send");
    bus.send(VrMessage::PedalState { pressed: 100 }).expect("send");
    let mut tick = fresh_tick(10_000);
    car.process(&mut tick).expect("tick");
    // half the wheel range maps to half the steering range
    assert_eq!(car.mapped_steer, 90);
    assert!(car.reverse);
    assert_eq!(car.throttle, 150);
    let throttle_write = tick
        .actuator_writes
        .iter()
        .find(|w| w.output == ActuatorOutput::Throttle)
        .expect("throttle write");
    assert_eq!(throttle_write.value, -150);
}

#[test]
fn changed_offsets_are_pushed_once() {
    let bus: pub_sub::PubSub<VrMessage> = pub_sub::PubSub::new();
    let mut car = CarDriver::new(&bus);
    let mut tick = fresh_tick(10_000);
    tick.config.servo_config = ServoConfig { steer_offset: 3, yaw_offset: 0, pitch_offset: -2 };
    car.process(&mut tick).expect("tick");
    let offsets: Vec<_> = tick.actuator_writes.iter().filter(|w| w.is_offset).collect();
    assert_eq!(offsets.len(), 2);
    assert_eq!(offsets[0].output, ActuatorOutput::Steering);
    assert_eq!(offsets[0].value, 3);
    assert_eq!(offsets[1].output, ActuatorOutput::CamPitch);
    assert_eq!(offsets[1].value, -2);
    // the same offsets again: nothing pushed
    let mut tick2 = fresh_tick(20_000);
    tick2.config.servo_config = ServoConfig { steer_offset: 3, yaw_offset: 0, pitch_offset: -2 };
    car.process(&mut tick2).expect("tick");
    assert!(tick2.actuator_writes.iter().all(|w| !w.is_offset));
}

#[test]
fn servo_config_command_updates_settings() {
    let bus: pub_sub::PubSub<VrMessage> = pub_sub::PubSub::new();
    let mut car = CarDriver::new(&bus);
    bus.send(VrMessage::SetServoConfig {
        config: ServoConfig { steer_offset: 7, yaw_offset: 8, pitch_offset: 9 },
    })
    .expect("send");
    let mut tick = fresh_tick(0);
    car.process(&mut tick).expect("tick");
    assert_eq!(tick.config.servo_config.steer_offset, 7);
    assert!(tick.config_dirty);
}
