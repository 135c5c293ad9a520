//! The broadcast bus the drivers publish to and drain from.
//!
//! The bus itself is an outside primitive (`pub_sub`): clone-to-publish,
//! subscribe-to-receive-own-queue, non-blocking receive, fire-and-forget.
//! Nothing is assumed about which messages a receive yields — other threads
//! publish concurrently — so every contract downstream is stated over the
//! messages actually handed out.

use vstd::prelude::*;
use crate::messages::VrMessage;

verus! {

#[verifier::external_type_specification]
#[verifier::external_body]
#[verifier::reject_recursive_types(T)]
pub struct ExPubSub<T: Clone>(pub_sub::PubSub<T>);

#[verifier::external_type_specification]
#[verifier::external_body]
#[verifier::reject_recursive_types(T)]
pub struct ExSubscription<T: Clone>(pub_sub::Subscription<T>);

/// Relies on the derived `pub_sub::PubSub::clone`: hands out another handle
/// to the same channel.
#[verifier::external_body]
pub(crate) fn bus_clone(bus: &pub_sub::PubSub<VrMessage>) -> pub_sub::PubSub<VrMessage> {
    bus.clone()
}

/// Relies on `pub_sub::PubSub::subscribe`: a fresh queue that sees every
/// message published on this channel after the call, and nothing earlier.
#[verifier::external_body]
pub(crate) fn bus_subscribe(
    bus: &pub_sub::PubSub<VrMessage>,
) -> pub_sub::Subscription<VrMessage> {
    bus.subscribe()
}

/// Relies on `pub_sub::PubSub::send`: attempts to hand one copy of the
/// message to every current subscriber; reports whether every hand-off was
/// accepted. Delivery is best-effort, so nothing more is assumed.
#[verifier::external_body]
pub(crate) fn bus_send(bus: &pub_sub::PubSub<VrMessage>, message: VrMessage) -> (ok: bool) {
    bus.send(message).is_ok()
}

/// Relies on `pub_sub::Subscription::try_recv`: takes the oldest queued
/// message without blocking, or reports that none is queued. Which message
/// comes back depends on what other threads published, so nothing is pinned.
#[verifier::external_body]
pub(crate) fn bus_try_recv(sub: &pub_sub::Subscription<VrMessage>) -> (m: Option<VrMessage>) {
    sub.try_recv().ok()
}

} // verus!
