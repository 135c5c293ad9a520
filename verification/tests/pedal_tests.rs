use ft_vr::drivers::{DeviceDriver, DriverTick};
use ft_vr::messages::{PedalPosition, RenderSettingsData, VrMessage};
use ft_vr::pedal::PedalDriver;

fn fresh_tick(now_ms: u64, pedal_sample: i32) -> DriverTick {
    DriverTick {
        now_ms,
        serial_input: Vec::new(),
        pedal_sample,
        wheel_rotation: 0,
        wheel_button_1: false,
        wheel_button_2: false,
        config: RenderSettingsData::default(),
        config_dirty: false,
        actuator_writes: Vec::new(),
    }
}

#[test]
fn zero_lower_takes_ring_mean_and_persists() {
    let bus: pub_sub::PubSub<VrMessage> = pub_sub::PubSub::new();
    let cfg = RenderSettingsData::default();
    let mut d = PedalDriver::new(&bus, &cfg);
    d.last_n = vec![100, 100, 100, 100, 100];
    assert_eq!(d.min, 0);
    assert_eq!(d.max, 0);
    bus.send(VrMessage::ZeroPedal { position: PedalPosition::Lower }).expect("send");
    // not yet due for sampling, so only the command is applied
    let mut tick = fresh_tick(0, 100);
    d.process(&mut tick).expect("tick");
    assert_eq!(d.min, 100);
    assert_eq!(tick.config.pedal_calibration_lower, 100);
    assert!(tick.config_dirty);
    // the next sampling corrects the degenerate upper bound to 1,
    // which already differs from the lower bound and stays
    let mut tick2 = fresh_tick(1000, 100);
    d.process(&mut tick2).expect("tick");
    assert_eq!(d.min, 100);
    assert_eq!(d.max, 1);
    assert_ne!(d.min, d.max);
}

#[test]
fn equal_bounds_are_nudged_apart() {
    let bus: pub_sub::PubSub<VrMessage> = pub_sub::PubSub::new();
    let cfg = RenderSettingsData::default();
    let mut d = PedalDriver::new(&bus, &cfg);
    d.min = 5;
    d.max = 5;
    let mut tick = fresh_tick(1000, 5);
    d.process(&mut tick).expect("tick");
    assert_eq!(d.min, 5);
    assert_eq!(d.max, 6);
}

#[test]
fn pressed_percentage_is_published_with_dead_zone() {
    let bus: pub_sub::PubSub<VrMessage> = pub_sub::PubSub::new();
    let observer = bus.subscribe();
    let cfg = RenderSettingsData::default();
    let mut d = PedalDriver::new(&bus, &cfg);
    d.min = 200;
    d.max = 1200;
    d.last_n = vec![700, 700, 700, 700, 700];
    let mut tick = fresh_tick(1000, 700);
    d.process(&mut tick).expect("tick");
    // mean 700 of range [200, 1200] maps to 50
    match observer.try_recv().expect("state") {
        VrMessage::PedalState { pressed } => assert_eq!(pressed, 50),
        other => panic!("unexpected message: {:?}", other),
    }
    // a barely pressed pedal is floored to zero
    d.last_n = vec![100, 100, 100, 100, 100];
    let mut tick2 = fresh_tick(2000, 100);
    d.process(&mut tick2).expect("tick");
    match observer.try_recv().expect("state") {
        VrMessage::PedalState { pressed } => assert_eq!(pressed, 0),
        other => panic!("unexpected message: {:?}", other),
    }
}

#[test]
fn sampling_respects_the_interval() {
    let bus: pub_sub::PubSub<VrMessage> = pub_sub::PubSub::new();
    let observer = bus.subscribe();
    let cfg = RenderSettingsData::default();
    let mut d = PedalDriver::new(&bus, &cfg);
    let mut tick = fresh_tick(1000, 7);
    d.process(&mut tick).expect("tick");
    assert!(observer.try_recv().is_ok());
    // 50 ms later: nothing sampled, nothing published
    let mut tick2 = fresh_tick(1050, 9);
    d.process(&mut tick2).expect("tick");
    assert!(observer.try_recv().is_err());
}
