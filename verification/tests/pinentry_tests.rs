use ft_vr::game::{GameUnit, Units};
use ft_vr::messages::{Interface, RenderSettingsData, VrMessage};
use ft_vr::pinentry::PinEntry;
use ft_vr::unit::{GameCoreUnit, UnitTick};

fn fresh_tick() -> UnitTick {
    UnitTick { now_ms: 0, config: RenderSettingsData::default(), config_dirty: false }
}

fn shown_text(m: VrMessage) -> String {
    match m {
        VrMessage::ShowRenderedInterface {
            interface: Interface::InputNumberAndConfirm { text },
        } => text,
        other => panic!("expected an interface request, got {:?}", other),
    }
}

/// Everything the unit published: the observer also sees the test's own
/// commands, which are skipped here.
fn next_output(observer: &pub_sub::Subscription<VrMessage>) -> VrMessage {
    loop {
        match observer.try_recv().expect("an output should have been published") {
            VrMessage::AskPin { .. } | VrMessage::InterfaceConfirm { .. } => continue,
            other => return other,
        }
    }
}

fn remaining_outputs(observer: &pub_sub::Subscription<VrMessage>) -> Vec<VrMessage> {
    let mut out = Vec::new();
    while let Ok(m) = observer.try_recv() {
        match m {
            VrMessage::AskPin { .. } | VrMessage::InterfaceConfirm { .. } => continue,
            other => out.push(other),
        }
    }
    out
}

#[test]
fn four_digit_pin_makes_four_round_trips() {
    let bus: pub_sub::PubSub<VrMessage> = pub_sub::PubSub::new();
    let mut pe = PinEntry::new(&bus);
    let observer = bus.subscribe();
    let mut tick = fresh_tick();

    bus.send(VrMessage::AskPin { length: 4 }).expect("send");
    pe.process(&mut tick).expect("tick");
    assert_eq!(shown_text(next_output(&observer)), "PIN: ");

    for (digit, prompt) in [(3, "PIN: 3"), (1, "PIN: 31"), (4, "PIN: 314")] {
        bus.send(VrMessage::InterfaceConfirm { data: digit }).expect("send");
        pe.process(&mut tick).expect("tick");
        assert_eq!(shown_text(next_output(&observer)), prompt);
    }

    bus.send(VrMessage::InterfaceConfirm { data: 1 }).expect("send");
    pe.process(&mut tick).expect("tick");
    match next_output(&observer) {
        VrMessage::ConfirmPin { pin } => assert_eq!(pin, "3141"),
        other => panic!("expected the finished PIN, got {:?}", other),
    }
    // exactly four round trips: nothing further is published
    assert!(remaining_outputs(&observer).is_empty());
}

#[test]
fn whole_pin_flow_in_one_drain() {
    let bus: pub_sub::PubSub<VrMessage> = pub_sub::PubSub::new();
    let mut pe = PinEntry::new(&bus);
    let observer = bus.subscribe();
    bus.send(VrMessage::AskPin { length: 2 }).expect("send");
    bus.send(VrMessage::InterfaceConfirm { data: 9 }).expect("send");
    bus.send(VrMessage::InterfaceConfirm { data: 0 }).expect("send");
    let mut tick = fresh_tick();
    pe.process(&mut tick).expect("tick");
    assert_eq!(shown_text(next_output(&observer)), "PIN: ");
    assert_eq!(shown_text(next_output(&observer)), "PIN: 9");
    match next_output(&observer) {
        VrMessage::ConfirmPin { pin } => assert_eq!(pin, "90"),
        other => panic!("expected the finished PIN, got {:?}", other),
    }
}

#[test]
fn confirms_without_a_request_are_ignored() {
    let bus: pub_sub::PubSub<VrMessage> = pub_sub::PubSub::new();
    let mut pe = PinEntry::new(&bus);
    let observer = bus.subscribe();
    bus.send(VrMessage::InterfaceConfirm { data: 7 }).expect("send");
    let mut tick = fresh_tick();
    pe.process(&mut tick).expect("tick");
    assert!(remaining_outputs(&observer).is_empty());
}

#[test]
fn units_register_the_pin_entry() {
    let bus: pub_sub::PubSub<VrMessage> = pub_sub::PubSub::new();
    let units = Units::from_bus(&bus).finish();
    assert_eq!(units.len(), 1);
    assert!(matches!(units[0], GameUnit::Pin(_)));
}
