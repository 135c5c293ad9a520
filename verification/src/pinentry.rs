//! PIN entry: builds an N-digit PIN by asking the modal-interface
//! fulfiller for one digit at a time, entirely over bus messages. A PIN
//! request starts the flow; each confirmed value is appended in decimal;
//! after the Nth confirmation the finished PIN is published.

use vstd::prelude::*;
use crate::bus::{bus_clone, bus_send, bus_subscribe, bus_try_recv};
use crate::decimal::{i32_string, int_string};
use crate::drivers::MAX_DRAIN_PER_TICK;
use crate::messages::{Interface, VrMessage};
use crate::unit::{GameCoreUnit, UnitError, UnitTick};

verus! {

/// Where a PIN entry stands: nothing requested, or collecting digits.
pub enum PinFlow {
    Idle,
    Collecting { target: u8, got: u8, pin: String },
}

/// The abstract state of the flow, over which the protocol is stated.
pub ghost struct PinFlowModel {
    pub collecting: bool,
    pub target: u8,
    pub got: u8,
    pub pin: Seq<char>,
}

/// The events the flow reacts to.
pub ghost enum PinEvent {
    Ask { length: u8 },
    Confirm { data: i32 },
    Other,
}

/// What one step of the flow publishes.
pub ghost enum PinOut {
    Silent,
    Show { text: Seq<char> },
    Done { pin: Seq<char> },
}

pub open spec fn idle_model() -> PinFlowModel {
    PinFlowModel { collecting: false, target: 0, got: 0, pin: Seq::empty() }
}

pub open spec fn flow_model(f: &PinFlow) -> PinFlowModel {
    match f {
        PinFlow::Idle => idle_model(),
        PinFlow::Collecting { target, got, pin } => PinFlowModel {
            collecting: true,
            target: *target,
            got: *got,
            pin: pin@,
        },
    }
}

pub open spec fn event_model(m: &VrMessage) -> PinEvent {
    match m {
        VrMessage::AskPin { length } => PinEvent::Ask { length: *length },
        VrMessage::InterfaceConfirm { data } => PinEvent::Confirm { data: *data },
        _ => PinEvent::Other,
    }
}

/// The prompt shown while a partial PIN stands.
pub open spec fn pin_prompt(pin: Seq<char>) -> Seq<char> {
    "PIN: "@ + pin
}

/// A collecting flow has digits left to collect.
pub open spec fn model_wf(s: PinFlowModel) -> bool {
    s.collecting ==> s.got < s.target
}

/// One step of the protocol: a request starts collection (an empty request
/// finishes at once); while collecting, each confirmed value is appended
/// in decimal, and either the next prompt goes out or, on the last digit,
/// the finished PIN; everything else is ignored.
pub open spec fn pin_model_step(s: PinFlowModel, e: PinEvent) -> (PinFlowModel, PinOut) {
    if !s.collecting {
        match e {
            PinEvent::Ask { length } => {
                if length == 0 {
                    (idle_model(), PinOut::Done { pin: Seq::empty() })
                } else {
                    (
                        PinFlowModel { collecting: true, target: length, got: 0, pin: Seq::empty() },
                        PinOut::Show { text: pin_prompt(Seq::empty()) },
                    )
                }
            },
            _ => (s, PinOut::Silent),
        }
    } else {
        match e {
            PinEvent::Confirm { data } => {
                let newpin = s.pin + int_string(data as int);
                if s.got + 1 >= s.target {
                    (idle_model(), PinOut::Done { pin: newpin })
                } else {
                    (
                        PinFlowModel {
                            collecting: true,
                            target: s.target,
                            got: (s.got + 1) as u8,
                            pin: newpin,
                        },
                        PinOut::Show { text: pin_prompt(newpin) },
                    )
                }
            },
            _ => (s, PinOut::Silent),
        }
    }
}

/// One executable step, agreeing with the abstract protocol step on both
/// the new state and what is published.
pub fn pin_step(f: &PinFlow, m: &VrMessage) -> (r: (PinFlow, Option<VrMessage>))
    requires
        model_wf(flow_model(f)),
    ensures
        model_wf(flow_model(&r.0)),
        flow_model(&r.0) == pin_model_step(flow_model(f), event_model(m)).0,
        ({
            let out = pin_model_step(flow_model(f), event_model(m)).1;
            match r.1 {
                Option::None => out is Silent,
                Option::Some(msg) => match msg {
                    VrMessage::ShowRenderedInterface {
                        interface: Interface::InputNumberAndConfirm { text },
                    } => out == (PinOut::Show { text: text@ }),
                    VrMessage::ConfirmPin { pin } => out == (PinOut::Done { pin: pin@ }),
                    _ => false,
                },
            }
        }),
{
    match (f, m) {
        (PinFlow::Idle, VrMessage::AskPin { length }) => {
            if *length == 0 {
                (PinFlow::Idle, Some(VrMessage::ConfirmPin { pin: String::new() }))
            } else {
                proof {
                    assert(pin_prompt(Seq::empty()) =~= "PIN: "@);
                }
                (
                    PinFlow::Collecting { target: *length, got: 0, pin: String::new() },
                    Some(
                        VrMessage::ShowRenderedInterface {
                            interface: Interface::InputNumberAndConfirm {
                                text: String::from_str("PIN: "),
                            },
                        },
                    ),
                )
            }
        },
        (PinFlow::Collecting { target, got, pin }, VrMessage::InterfaceConfirm { data }) => {
            let digits = i32_string(*data);
            let newpin = pin.clone().concat(digits.as_str());
            if *got + 1 >= *target {
                (PinFlow::Idle, Some(VrMessage::ConfirmPin { pin: newpin }))
            } else {
                let prompt = String::from_str("PIN: ").concat(newpin.as_str());
                (
                    PinFlow::Collecting { target: *target, got: *got + 1, pin: newpin },
                    Some(
                        VrMessage::ShowRenderedInterface {
                            interface: Interface::InputNumberAndConfirm { text: prompt },
                        },
                    ),
                )
            }
        },
        (other, _) => {
            let kept = match other {
                PinFlow::Idle => PinFlow::Idle,
                PinFlow::Collecting { target, got, pin } => PinFlow::Collecting {
                    target: *target,
                    got: *got,
                    pin: pin.clone(),
                },
            };
            (kept, None)
        },
    }
}

/// The PIN entry unit: its flow state and the bus it converses over.
pub struct PinEntry {
    bus: pub_sub::PubSub<VrMessage>,
    subscription: pub_sub::Subscription<VrMessage>,
    flow: PinFlow,
}

impl PinEntry {
    /// The abstract state of the unit's flow.
    pub closed spec fn flow_view(&self) -> PinFlowModel {
        flow_model(&self.flow)
    }

    pub fn new(bus: &pub_sub::PubSub<VrMessage>) -> (r: PinEntry)
        ensures
            r.wf(),
            r.flow_view() == idle_model(),
    {
        PinEntry {
            bus: bus_clone(bus),
            subscription: bus_subscribe(bus),
            flow: PinFlow::Idle,
        }
    }
}

impl GameCoreUnit for PinEntry {
    closed spec fn wf(&self) -> bool {
        model_wf(flow_model(&self.flow))
    }

    /// Drain pending bus messages through the flow, publishing whatever
    /// each step decided. The tick context is never touched: this unit
    /// lives on the bus alone.
    fn process(&mut self, tick: &mut UnitTick) -> (r: Result<(), UnitError>)
        ensures
            *final(tick) == *old(tick),
    {
        let mut k: u64 = 0;
        while k < MAX_DRAIN_PER_TICK
            invariant
                self.wf(),
            decreases MAX_DRAIN_PER_TICK - k,
        {
            match bus_try_recv(&self.subscription) {
                Some(m) => {
                    let (next, out) = pin_step(&self.flow, &m);
                    self.flow = next;
                    match out {
                        Some(msg) => {
                            if !bus_send(&self.bus, msg) {
                                return Err(UnitError::Bus);
                            }
                        },
                        None => {},
                    }
                },
                None => {
                    break ;
                },
            }
            k += 1;
        }
        Ok(())
    }
}

// --- the round-trip law ---------------------------------------------------------

/// A run of the protocol: the state reached and everything published.
pub ghost struct PinRun {
    pub state: PinFlowModel,
    pub outs: Seq<PinOut>,
}

/// Fold the protocol step over a sequence of events, recording every
/// published output.
pub open spec fn pin_model_run(s: PinFlowModel, evs: Seq<PinEvent>) -> PinRun
    decreases evs.len(),
{
    if evs.len() == 0 {
        PinRun { state: s, outs: Seq::empty() }
    } else {
        let step = pin_model_step(s, evs[0]);
        let rest = pin_model_run(step.0, evs.skip(1));
        PinRun {
            state: rest.state,
            outs: (match step.1 {
                PinOut::Silent => rest.outs,
                _ => seq![step.1] + rest.outs,
            }),
        }
    }
}

/// The confirmed values, as events.
pub open spec fn confirm_events(ds: Seq<i32>) -> Seq<PinEvent> {
    ds.map_values(|d: i32| PinEvent::Confirm { data: d })
}

/// The confirmed values rendered in decimal and concatenated in order.
pub open spec fn pin_digits(ds: Seq<i32>) -> Seq<char>
    decreases ds.len(),
{
    if ds.len() == 0 {
        Seq::empty()
    } else {
        int_string(ds[0] as int) + pin_digits(ds.skip(1))
    }
}

/// A collecting flow fed the digits it still needs: every confirmation but
/// the last answers with the next prompt, the last publishes the finished
/// PIN — the collected prefix plus the confirmed values in request order —
/// and the flow returns to idle.
proof fn lemma_collecting_run(target: u8, got: u8, pin: Seq<char>, ds: Seq<i32>)
    requires
        got < target,
        got + ds.len() == target,
    ensures
        ({
            let s = PinFlowModel { collecting: true, target, got, pin };
            let run = pin_model_run(s, confirm_events(ds));
            &&& run.state == idle_model()
            &&& run.outs.len() == ds.len()
            &&& run.outs.last() == (PinOut::Done { pin: pin + pin_digits(ds) })
            &&& forall|i: int| 0 <= i < ds.len() - 1 ==> run.outs[i] is Show
        }),
    decreases ds.len(),
{
    reveal_with_fuel(pin_model_run, 3);
    let s = PinFlowModel { collecting: true, target, got, pin };
    let evs = confirm_events(ds);
    assert(evs.len() == ds.len());
    assert(evs[0] == (PinEvent::Confirm { data: ds[0] }));
    assert(evs.skip(1) =~= confirm_events(ds.skip(1)));
    let newpin = pin + int_string(ds[0] as int);
    if ds.len() == 1 {
        assert(got + 1 >= target);
        let run = pin_model_run(s, evs);
        assert(run.state == idle_model());
        assert(pin_digits(ds.skip(1)) =~= Seq::<char>::empty());
        assert(pin + pin_digits(ds) =~= newpin);
        assert(run.outs =~= seq![PinOut::Done { pin: newpin }]);
    } else {
        assert(got + 1 < target);
        let s2 = PinFlowModel {
            collecting: true,
            target,
            got: (got + 1) as u8,
            pin: newpin,
        };
        lemma_collecting_run(target, (got + 1) as u8, newpin, ds.skip(1));
        let rest = pin_model_run(s2, confirm_events(ds.skip(1)));
        let run = pin_model_run(s, evs);
        assert(run.outs =~= seq![PinOut::Show { text: pin_prompt(newpin) }] + rest.outs);
        assert(newpin + pin_digits(ds.skip(1)) =~= pin + pin_digits(ds));
        assert(run.outs.last() == rest.outs.last());
        assert forall|i: int| 0 <= i < ds.len() - 1 implies run.outs[i] is Show by {
            if i > 0 {
                assert(run.outs[i] == rest.outs[i - 1]);
            }
        }
    }
}

/// PIN entry end to end: a request for an `n`-digit PIN, answered by `n`
/// confirmations, makes exactly `n` show-interface/confirm round trips and
/// ends with the confirmed values concatenated in request order.
pub proof fn lemma_pin_entry_round_trip(length: u8, ds: Seq<i32>)
    requires
        0 < length,
        ds.len() == length as int,
    ensures
        ({
            let run = pin_model_run(
                idle_model(),
                seq![PinEvent::Ask { length }] + confirm_events(ds),
            );
            &&& run.state == idle_model()
            &&& run.outs.len() == length + 1
            &&& run.outs.last() == (PinOut::Done { pin: pin_digits(ds) })
            &&& forall|i: int| 0 <= i < length ==> run.outs[i] is Show
        }),
{
    reveal_with_fuel(pin_model_run, 3);
    let evs = seq![PinEvent::Ask { length }] + confirm_events(ds);
    assert(evs[0] == (PinEvent::Ask { length }));
    assert(evs.skip(1) =~= confirm_events(ds));
    let s2 = PinFlowModel { collecting: true, target: length, got: 0, pin: Seq::empty() };
    lemma_collecting_run(length, 0, Seq::empty(), ds);
    let rest = pin_model_run(s2, confirm_events(ds));
    let run = pin_model_run(idle_model(), evs);
    assert(run.outs =~= seq![PinOut::Show { text: pin_prompt(Seq::empty()) }] + rest.outs);
    assert(Seq::<char>::empty() + pin_digits(ds) =~= pin_digits(ds));
    assert(run.outs.last() == rest.outs.last());
    assert forall|i: int| 0 <= i < length implies run.outs[i] is Show by {
        if i > 0 {
            assert(run.outs[i] == rest.outs[i - 1]);
            if i < length {
                assert(rest.outs[i - 1] is Show);
            }
        }
    }
}

} // verus!
