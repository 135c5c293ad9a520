//! Steering wheel driver: reads the rotary encoder and two buttons each
//! tick, keeps a resettable zero offset, and publishes the wheel state.

use vstd::prelude::*;
use crate::bus::{bus_clone, bus_send, bus_subscribe, bus_try_recv};
use crate::drivers::{DeviceDriver, DriverProcessError, DriverTick, MAX_DRAIN_PER_TICK};
use crate::messages::VrMessage;

verus! {

/// Driver of the steering wheel. The caller reads the encoder and button
/// hardware and hands the raw values in each tick.
pub struct SteeringWheelDriver {
    bus: pub_sub::PubSub<VrMessage>,
    subscription: pub_sub::Subscription<VrMessage>,
    rotation: i128,
    flipped_buttons: bool,
    button_1_val: bool,
    button_2_val: bool,
    offset: i128,
}

impl SteeringWheelDriver {
    pub closed spec fn rotation_view(&self) -> int {
        self.rotation as int
    }

    pub closed spec fn offset_view(&self) -> int {
        self.offset as int
    }

    pub closed spec fn flipped_view(&self) -> bool {
        self.flipped_buttons
    }

    pub closed spec fn buttons_view(&self) -> (bool, bool) {
        (self.button_1_val, self.button_2_val)
    }

    pub fn new(bus: &pub_sub::PubSub<VrMessage>) -> (d: SteeringWheelDriver)
        ensures
            d.wf(),
            d.rotation_view() == 0,
            d.offset_view() == 0,
            !d.flipped_view(),
            d.buttons_view() == (false, false),
    {
        SteeringWheelDriver {
            bus: bus_clone(bus),
            subscription: bus_subscribe(bus),
            rotation: 0,
            flipped_buttons: false,
            button_1_val: false,
            button_2_val: false,
            offset: 0,
        }
    }

    /// Apply one bus message: a flip command swaps the button roles, a
    /// reset command makes the current rotation the new zero.
    pub fn handle_message(&mut self, m: &VrMessage)
        ensures
            final(self).rotation_view() == old(self).rotation_view(),
            final(self).buttons_view() == old(self).buttons_view(),
            old(self).wf() ==> final(self).wf(),
            match m {
                VrMessage::FlipWheelBtns { flip } => final(self).flipped_view() == flip
                    && final(self).offset_view() == old(self).offset_view(),
                VrMessage::ResetWheel {  } => final(self).offset_view()
                    == old(self).rotation_view() && final(self).flipped_view()
                    == old(self).flipped_view(),
                _ => final(self).flipped_view() == old(self).flipped_view()
                    && final(self).offset_view() == old(self).offset_view(),
            },
    {
        match m {
            VrMessage::FlipWheelBtns { flip } => {
                self.flipped_buttons = *flip;
            },
            VrMessage::ResetWheel {  } => {
                self.offset = self.rotation;
            },
            _ => {},
        }
    }

    /// The state-report message: rotation relative to the offset, and the
    /// buttons in their configured roles.
    pub fn as_state_transfer(&self) -> (m: VrMessage)
        requires
            self.wf(),
        ensures
            m == (VrMessage::WheelState {
                rotation: (self.rotation_view() - self.offset_view()) as i128,
                left_button: if self.flipped_view() {
                    self.buttons_view().1
                } else {
                    self.buttons_view().0
                },
                right_button: if self.flipped_view() {
                    self.buttons_view().0
                } else {
                    self.buttons_view().1
                },
                flipped: self.flipped_view(),
            }),
    {
        VrMessage::WheelState {
            rotation: self.rotation - self.offset,
            left_button: if self.flipped_buttons {
                self.button_2_val
            } else {
                self.button_1_val
            },
            right_button: if self.flipped_buttons {
                self.button_1_val
            } else {
                self.button_2_val
            },
            flipped: self.flipped_buttons,
        }
    }
}

impl DeviceDriver for SteeringWheelDriver {
    /// Rotation and offset both originate from a negated 64-bit encoder
    /// value, so their difference stays well inside `i128`.
    closed spec fn wf(&self) -> bool {
        &&& -0x8000_0000_0000_0000 <= self.rotation <= 0x8000_0000_0000_0000
        &&& -0x8000_0000_0000_0000 <= self.offset <= 0x8000_0000_0000_0000
    }

    /// One tick: apply pending flip and reset commands, take the fresh
    /// hardware readings, and publish the wheel state (one message, built
    /// by `as_state_transfer` from the post-read state).
    fn process(&mut self, tick: &mut DriverTick) -> (r: Result<(), DriverProcessError>)
        ensures
            final(self).rotation_view() == -(old(tick).wheel_rotation as int),
            final(self).buttons_view() == (old(tick).wheel_button_1, old(tick).wheel_button_2),
            final(self).offset_view() == old(self).offset_view() || final(self).offset_view()
                == old(self).rotation_view(),
            *final(tick) == *old(tick),
            r == Ok::<(), DriverProcessError>(()) || r == Err::<(), DriverProcessError>(
                DriverProcessError::BusError,
            ),
    {
        let mut k: u64 = 0;
        while k < MAX_DRAIN_PER_TICK
            invariant
                self.wf(),
                self.rotation_view() == old(self).rotation_view(),
                self.offset_view() == old(self).offset_view() || self.offset_view() == old(
                    self,
                ).rotation_view(),
            decreases MAX_DRAIN_PER_TICK - k,
        {
            match bus_try_recv(&self.subscription) {
                Some(m) => {
                    self.handle_message(&m);
                },
                None => {
                    break ;
                },
            }
            k += 1;
        }
        self.rotation = -(tick.wheel_rotation as i128);
        self.button_1_val = tick.wheel_button_1;
        self.button_2_val = tick.wheel_button_2;
        let message = self.as_state_transfer();
        if bus_send(&self.bus, message) {
            Ok(())
        } else {
            Err(DriverProcessError::BusError)
        }
    }
}

} // verus!
