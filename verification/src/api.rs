//! The modal interface request/confirm protocol, layered purely on bus
//! messages: a requester publishes a "show interface" message and then
//! polls its own subscription, ignoring everything until a confirm message
//! arrives. Requester and fulfiller never hold a reference to each other.
//!
//! Polling one message at a time is a single step; the caller drives the
//! steps, yielding between them, until a confirm arrives.

use vstd::prelude::*;
use crate::bus::{bus_clone, bus_send, bus_subscribe, bus_try_recv};
use crate::messages::{Interface, VrMessage};
use crate::unit::UnitError;

verus! {

/// A paired publish handle and private subscription, as the protocol
/// needs: the confirm comes back over the same bus the request went out on.
pub struct AsyncBus {
    publication: pub_sub::PubSub<VrMessage>,
    subscription: pub_sub::Subscription<VrMessage>,
}

/// The confirm filter: the one value a confirm message carries, and
/// nothing for every other message shape.
pub fn confirm_value(m: &VrMessage) -> (r: Option<i32>)
    ensures
        r == (match m {
            VrMessage::InterfaceConfirm { data } => Some(*data),
            _ => Option::<i32>::None,
        }),
{
    match m {
        VrMessage::InterfaceConfirm { data } => Some(*data),
        _ => None,
    }
}

/// The message that asks whoever renders interfaces to collect one value.
pub fn request_message(interface: Interface) -> (m: VrMessage)
    ensures
        m == (VrMessage::ShowRenderedInterface { interface }),
{
    VrMessage::ShowRenderedInterface { interface }
}

impl AsyncBus {
    pub fn new(pub_sub: &pub_sub::PubSub<VrMessage>) -> (r: AsyncBus) {
        AsyncBus { publication: bus_clone(pub_sub), subscription: bus_subscribe(pub_sub) }
    }

    /// Publish the request that asks whoever renders interfaces to collect
    /// one value: exactly `request_message(interface)` goes out.
    pub fn open_interface(&mut self, interface: Interface) -> (r: Result<(), UnitError>)
        ensures
            r == Ok::<(), UnitError>(()) || r == Err::<(), UnitError>(UnitError::Bus),
    {
        if bus_send(&self.publication, request_message(interface)) {
            Ok(())
        } else {
            Err(UnitError::Bus)
        }
    }

    /// One polling step of the await: take at most one queued message and
    /// hand back the confirmed value if that message was a confirm; any
    /// other message is discarded, as the protocol ignores unrelated
    /// traffic while awaiting.
    pub fn poll_confirm(&mut self) -> (r: Option<i32>) {
        match bus_try_recv(&self.subscription) {
            Some(m) => confirm_value(&m),
            None => None,
        }
    }
}

} // verus!
