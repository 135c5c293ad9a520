use ft_vr::drivers::{DeviceDriver, DriverTick};
use ft_vr::leaderboard::{Leaderboard, next_id};
use ft_vr::messages::{LeaderboardEntry, RenderSettingsData, VrMessage};
use ft_vr::steering_wheel::SteeringWheelDriver;
use ft_vr::unit::{GameCoreUnit, UnitTick};

fn driver_tick(now_ms: u64, wheel_rotation: i64, b1: bool, b2: bool) -> DriverTick {
    DriverTick {
        now_ms,
        serial_input: Vec::new(),
        pedal_sample: 0,
        wheel_rotation,
        wheel_button_1: b1,
        wheel_button_2: b2,
        config: RenderSettingsData::default(),
        config_dirty: false,
        actuator_writes: Vec::new(),
    }
}

fn unit_tick(now_ms: u64) -> UnitTick {
    UnitTick { now_ms, config: RenderSettingsData::default(), config_dirty: false }
}

fn entry(name: &str, time_ms: u64, id: u32) -> LeaderboardEntry {
    LeaderboardEntry { name: name.to_string(), time_ms, id }
}

/// The observer also sees the test's own commands; collect only what the
/// drivers and units published.
fn published(observer: &pub_sub::Subscription<VrMessage>) -> Vec<VrMessage> {
    let mut out = Vec::new();
    while let Ok(m) = observer.try_recv() {
        match m {
            VrMessage::WheelState { .. } | VrMessage::PushTimerEntry { .. } => out.push(m),
            _ => {},
        }
    }
    out
}

#[test]
fn wheel_publishes_negated_rotation() {
    let bus: pub_sub::PubSub<VrMessage> = pub_sub::PubSub::new();
    let observer = bus.subscribe();
    let mut w = SteeringWheelDriver::new(&bus);
    let mut tick = driver_tick(0, 5, true, false);
    w.process(&mut tick).expect("tick");
    match published(&observer).pop().expect("state") {
        VrMessage::WheelState { rotation, left_button, right_button, flipped } => {
            assert_eq!(rotation, -5);
            assert!(left_button && !right_button && !flipped);
        },
        other => panic!("unexpected message: {:?}", other),
    }
}

#[test]
fn wheel_reset_zeroes_the_reported_rotation() {
    let bus: pub_sub::PubSub<VrMessage> = pub_sub::PubSub::new();
    let observer = bus.subscribe();
    let mut w = SteeringWheelDriver::new(&bus);
    let mut tick = driver_tick(0, 5, false, false);
    w.process(&mut tick).expect("tick");
    assert_eq!(published(&observer).len(), 1);
    bus.send(VrMessage::ResetWheel {}).expect("send");
    let mut tick2 = driver_tick(40, 5, false, false);
    w.process(&mut tick2).expect("tick");
    match published(&observer).pop().expect("state") {
        VrMessage::WheelState { rotation, .. } => assert_eq!(rotation, 0),
        other => panic!("unexpected message: {:?}", other),
    }
}

#[test]
fn flipped_buttons_swap_roles() {
    let bus: pub_sub::PubSub<VrMessage> = pub_sub::PubSub::new();
    let observer = bus.subscribe();
    let mut w = SteeringWheelDriver::new(&bus);
    bus.send(VrMessage::FlipWheelBtns { flip: true }).expect("send");
    let mut tick = driver_tick(0, 0, true, false);
    w.process(&mut tick).expect("tick");
    match published(&observer).pop().expect("state") {
        VrMessage::WheelState { left_button, right_button, flipped, .. } => {
            assert!(!left_button && right_button && flipped);
        },
        other => panic!("unexpected message: {:?}", other),
    }
}

#[test]
fn next_id_is_one_above_the_largest() {
    let empty: Vec<LeaderboardEntry> = Vec::new();
    assert_eq!(next_id(&empty), 1);
    assert_eq!(next_id(&vec![entry("a", 10, 4), entry("b", 20, 2)]), 5);
}

#[test]
fn finished_timer_becomes_a_published_entry() {
    let bus: pub_sub::PubSub<VrMessage> = pub_sub::PubSub::new();
    let observer = bus.subscribe();
    let mut lb = Leaderboard::new(&bus);
    bus.send(VrMessage::TimerStart { name: "bob".to_string() }).expect("send");
    let mut tick = unit_tick(1000);
    lb.process(&mut tick).expect("tick");
    bus.send(VrMessage::TimerEnd {}).expect("send");
    let mut tick2 = unit_tick(3500);
    tick2.config.leaderboard.push(entry("old", 99, 7));
    lb.process(&mut tick2).expect("tick");
    assert_eq!(tick2.config.leaderboard.len(), 2);
    let added = &tick2.config.leaderboard[1];
    assert_eq!(added.name, "bob");
    assert_eq!(added.time_ms, 2500);
    assert_eq!(added.id, 8);
    assert!(tick2.config_dirty);
    match published(&observer).pop().expect("published entry") {
        VrMessage::PushTimerEntry { entry } => {
            assert_eq!(entry.name, "bob");
            assert_eq!(entry.time_ms, 2500);
            assert_eq!(entry.id, 8);
        },
        other => panic!("unexpected message: {:?}", other),
    }
}

#[test]
fn delete_removes_exactly_the_entry_with_that_id() {
    let bus: pub_sub::PubSub<VrMessage> = pub_sub::PubSub::new();
    let mut lb = Leaderboard::new(&bus);
    bus.send(VrMessage::DeleteTimerEntry { id: 2 }).expect("send");
    let mut tick = unit_tick(0);
    tick.config.leaderboard.push(entry("a", 10, 1));
    tick.config.leaderboard.push(entry("b", 20, 2));
    tick.config.leaderboard.push(entry("c", 30, 3));
    lb.process(&mut tick).expect("tick");
    let names: Vec<String> = tick.config.leaderboard.iter().map(|e| e.name.clone()).collect();
    assert_eq!(names, vec!["a".to_string(), "c".to_string()]);
    assert!(tick.config_dirty);
}

#[test]
fn timer_end_without_a_start_does_nothing() {
    let bus: pub_sub::PubSub<VrMessage> = pub_sub::PubSub::new();
    let observer = bus.subscribe();
    let mut lb = Leaderboard::new(&bus);
    bus.send(VrMessage::TimerEnd {}).expect("send");
    let mut tick = unit_tick(0);
    lb.process(&mut tick).expect("tick");
    assert!(tick.config.leaderboard.is_empty());
    assert!(!tick.config_dirty);
    assert!(published(&observer).is_empty());
}
