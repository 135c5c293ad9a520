//! Throttle pedal driver: a two-point (lower/upper) calibration state
//! machine over a five-slot ring of raw analog samples, smoothed and
//! mapped to a 0–100 "pressed" percentage with a dead zone at the bottom.

use vstd::prelude::*;
use crate::bus::{bus_clone, bus_send, bus_subscribe, bus_try_recv};
use crate::drivers::{DeviceDriver, DriverProcessError, DriverTick, MAX_DRAIN_PER_TICK};
use crate::messages::{PedalPosition, RenderSettingsData, VrMessage, settings_eq_except_pedal};
use crate::numeric::{clamp_i64, clamp_spec, div_trunc, div_trunc_i64, lemma_div_trunc_range};

verus! {

/// Milliseconds that must pass between two pedal samples.
pub const PEDAL_SAMPLE_INTERVAL_MS: u64 = 100;

/// Readings below this percentage are floored to zero.
pub const PEDAL_DEAD_ZONE: u8 = 20;

/// Sum of a five-slot ring.
pub open spec fn sum5(s: Seq<i32>) -> int {
    s[0] + s[1] + s[2] + s[3] + s[4]
}

/// Mean of a five-slot ring, rounding toward zero.
pub open spec fn mean5(s: Seq<i32>) -> int {
    div_trunc(sum5(s), 5)
}

/// A degenerate calibration corrected: zero bounds become one, and an
/// upper bound equal to the lower is nudged away by one.
pub open spec fn correct_calibration(min: int, max: int) -> (int, int) {
    let m = if min == 0 {
        1
    } else {
        min
    };
    let x0 = if max == 0 {
        1
    } else {
        max
    };
    let x = if x0 == m {
        if x0 < i32::MAX {
            x0 + 1
        } else {
            x0 - 1
        }
    } else {
        x0
    };
    (m, x)
}

/// After any calibration correction the two bounds are distinct, so the
/// percentage mapping never divides by zero.
pub proof fn lemma_calibration_distinct(min: int, max: int)
    ensures
        correct_calibration(min, max).0 != correct_calibration(min, max).1,
{
}

/// The raw percentage: the mean clamped into `[min, max]`, then mapped
/// linearly so that `min` is 0 and `max` is 100, rounding toward zero.
pub open spec fn pedal_percent(mean: int, min: int, max: int) -> int {
    div_trunc((clamp_spec(mean, min, max) - min) * 100, max - min)
}

/// What is reported: the percentage held to `[0, 255]`, with everything
/// below the dead zone floored to 0.
pub open spec fn pedal_pressed(percent: int) -> int {
    let s = clamp_spec(percent, 0, 255);
    if s < PEDAL_DEAD_ZONE as int {
        0
    } else {
        s
    }
}

/// Driver of the throttle pedal. The caller samples the analog input and
/// hands the raw value in each tick.
pub struct PedalDriver {
    bus: pub_sub::PubSub<VrMessage>,
    subscription: pub_sub::Subscription<VrMessage>,
    pub min: i32,
    pub max: i32,
    pub last_n: Vec<i32>,
    pub idx: usize,
    pub last_read_ms: u64,
    pub current_minmax: u8,
}

impl PedalDriver {
    /// The calibration lower bound.
    pub closed spec fn min_view(&self) -> int {
        self.min as int
    }

    /// The calibration upper bound.
    pub closed spec fn max_view(&self) -> int {
        self.max as int
    }

    /// The five most recent raw samples.
    pub closed spec fn ring_view(&self) -> Seq<i32> {
        self.last_n@
    }

    /// The ring slot the next sample lands in.
    pub closed spec fn idx_view(&self) -> int {
        self.idx as int
    }

    /// When the pedal was last sampled.
    pub closed spec fn last_read_view(&self) -> u64 {
        self.last_read_ms
    }

    /// The last reported percentage.
    pub closed spec fn pressed_view(&self) -> u8 {
        self.current_minmax
    }

    /// Calibration bounds come from the persisted settings; the ring
    /// starts zeroed.
    pub fn new(bus: &pub_sub::PubSub<VrMessage>, config: &RenderSettingsData) -> (d: PedalDriver)
        ensures
            d.wf(),
            d.min_view() == config.pedal_calibration_lower as int,
            d.max_view() == config.pedal_calibration_upper as int,
            d.ring_view() =~= seq![0i32, 0i32, 0i32, 0i32, 0i32],
            d.idx_view() == 0,
            d.last_read_view() == 0,
            d.pressed_view() == 0,
    {
        let mut ring: Vec<i32> = Vec::new();
        ring.push(0);
        ring.push(0);
        ring.push(0);
        ring.push(0);
        ring.push(0);
        PedalDriver {
            bus: bus_clone(bus),
            subscription: bus_subscribe(bus),
            min: config.pedal_calibration_lower,
            max: config.pedal_calibration_upper,
            last_n: ring,
            idx: 0,
            last_read_ms: 0,
            current_minmax: 0,
        }
    }

    /// Mean of the ring, rounding toward zero.
    fn ring_mean(&self) -> (r: i32)
        requires
            self.wf(),
        ensures
            r as int == mean5(self.ring_view()),
    {
        let sum: i64 = self.last_n[0] as i64 + self.last_n[1] as i64 + self.last_n[2] as i64
            + self.last_n[3] as i64 + self.last_n[4] as i64;
        let mean = div_trunc_i64(sum, 5);
        proof {
            lemma_div_trunc_range(sum as int, 5, i32::MIN as int, i32::MAX as int);
        }
        mean as i32
    }

    /// Apply one bus message: a zero-lower or zero-upper command moves the
    /// matching bound to the current ring mean and records it in the
    /// settings document for persisting; anything else is ignored.
    pub fn handle_message(&mut self, m: &VrMessage, tick: &mut DriverTick)
        requires
            old(self).wf(),
        ensures
            final(self).wf(),
            final(self).ring_view() == old(self).ring_view(),
            final(self).idx_view() == old(self).idx_view(),
            final(self).last_read_view() == old(self).last_read_view(),
            final(self).pressed_view() == old(self).pressed_view(),
            final(tick).now_ms == old(tick).now_ms,
            final(tick).pedal_sample == old(tick).pedal_sample,
            final(tick).serial_input == old(tick).serial_input,
            final(tick).wheel_rotation == old(tick).wheel_rotation,
            final(tick).wheel_button_1 == old(tick).wheel_button_1,
            final(tick).wheel_button_2 == old(tick).wheel_button_2,
            final(tick).actuator_writes == old(tick).actuator_writes,
            match m {
                VrMessage::ZeroPedal { position: PedalPosition::Lower } => {
                    &&& final(self).min_view() == mean5(old(self).ring_view())
                    &&& final(self).max_view() == old(self).max_view()
                    &&& final(tick).config.pedal_calibration_lower as int == mean5(
                        old(self).ring_view(),
                    )
                    &&& final(tick).config.pedal_calibration_upper
                        == old(tick).config.pedal_calibration_upper
                    &&& settings_eq_except_pedal(final(tick).config, old(tick).config)
                    &&& final(tick).config_dirty
                },
                VrMessage::ZeroPedal { position: PedalPosition::Upper } => {
                    &&& final(self).max_view() == mean5(old(self).ring_view())
                    &&& final(self).min_view() == old(self).min_view()
                    &&& final(tick).config.pedal_calibration_upper as int == mean5(
                        old(self).ring_view(),
                    )
                    &&& final(tick).config.pedal_calibration_lower
                        == old(tick).config.pedal_calibration_lower
                    &&& settings_eq_except_pedal(final(tick).config, old(tick).config)
                    &&& final(tick).config_dirty
                },
                _ => final(self).min_view() == old(self).min_view() && final(self).max_view()
                    == old(self).max_view() && final(tick).config == old(tick).config
                    && final(tick).config_dirty == old(tick).config_dirty,
            },
    {
        match m {
            VrMessage::ZeroPedal { position } => {
                let mean = self.ring_mean();
                match position {
                    PedalPosition::Lower => {
                        self.min = mean;
                        tick.config.pedal_calibration_lower = mean;
                    },
                    PedalPosition::Upper => {
                        self.max = mean;
                        tick.config.pedal_calibration_upper = mean;
                    },
                }
                tick.config_dirty = true;
            },
            _ => {},
        }
    }

    /// One sampling step. Nothing happens until the sampling interval has
    /// passed; then the sample enters the ring, a degenerate calibration
    /// is corrected, and the new pressed percentage is computed and
    /// returned for publishing.
    pub fn sample_tick(&mut self, now_ms: u64, sample: i32) -> (r: Option<u8>)
        requires
            old(self).wf(),
        ensures
            final(self).wf(),
            ({
                let due = now_ms >= old(self).last_read_view() && now_ms
                    - old(self).last_read_view() >= PEDAL_SAMPLE_INTERVAL_MS;
                if due {
                    let ring = old(self).ring_view().update(old(self).idx_view(), sample);
                    let bounds = correct_calibration(old(self).min_view(), old(self).max_view());
                    let pressed = pedal_pressed(pedal_percent(mean5(ring), bounds.0, bounds.1));
                    &&& final(self).ring_view() == ring
                    &&& final(self).idx_view() == (old(self).idx_view() + 1) % 5
                    &&& final(self).min_view() == bounds.0
                    &&& final(self).max_view() == bounds.1
                    &&& final(self).last_read_view() == now_ms
                    &&& final(self).pressed_view() as int == pressed
                    &&& r == Some(pressed as u8)
                } else {
                    &&& final(self).ring_view() == old(self).ring_view()
                    &&& final(self).idx_view() == old(self).idx_view()
                    &&& final(self).min_view() == old(self).min_view()
                    &&& final(self).max_view() == old(self).max_view()
                    &&& final(self).last_read_view() == old(self).last_read_view()
                    &&& final(self).pressed_view() == old(self).pressed_view()
                    &&& r is None
                }
            }),
    {
        if !(now_ms >= self.last_read_ms && now_ms - self.last_read_ms
            >= PEDAL_SAMPLE_INTERVAL_MS) {
            return None;
        }
        self.last_read_ms = now_ms;
        self.last_n.set(self.idx, sample);
        self.idx = (self.idx + 1) % 5;
        if self.min == 0 {
            self.min = 1;
        }
        if self.max == 0 {
            self.max = 1;
        }
        if self.max == self.min {
            if self.max < i32::MAX {
                self.max = self.max + 1;
            } else {
                self.max = self.max - 1;
            }
        }
        let mean = self.ring_mean();
        let span: i64 = self.max as i64 - self.min as i64;
        let offset: i64 = clamp_i64(mean as i64, self.min as i64, self.max as i64)
            - self.min as i64;
        let percent: i64 = div_trunc_i64(offset * 100, span);
        let sat: i64 = if percent < 0 {
            0
        } else if percent > 255 {
            255
        } else {
            percent
        };
        let pressed: u8 = if sat < PEDAL_DEAD_ZONE as i64 {
            0
        } else {
            sat as u8
        };
        self.current_minmax = pressed;
        Some(pressed)
    }

    /// The state-report message: how far the pedal is pressed.
    pub fn as_state_transfer(&self) -> (m: VrMessage)
        ensures
            m == (VrMessage::PedalState { pressed: self.pressed_view() }),
    {
        VrMessage::PedalState { pressed: self.current_minmax }
    }
}

impl DeviceDriver for PedalDriver {
    /// The sample ring keeps its five slots and the write index stays in
    /// range.
    closed spec fn wf(&self) -> bool {
        self.last_n@.len() == 5 && self.idx < 5
    }

    /// One tick: apply pending calibration commands, then sample if the
    /// interval has passed and publish the new percentage (one message,
    /// built by `as_state_transfer`; none when the interval has not passed).
    fn process(&mut self, tick: &mut DriverTick) -> (r: Result<(), DriverProcessError>)
        ensures
            final(tick).now_ms == old(tick).now_ms,
            final(tick).serial_input == old(tick).serial_input,
            final(tick).pedal_sample == old(tick).pedal_sample,
            final(tick).wheel_rotation == old(tick).wheel_rotation,
            final(tick).wheel_button_1 == old(tick).wheel_button_1,
            final(tick).wheel_button_2 == old(tick).wheel_button_2,
            final(tick).actuator_writes == old(tick).actuator_writes,
            ({
                let due = old(tick).now_ms >= old(self).last_read_view() && old(tick).now_ms
                    - old(self).last_read_view() >= PEDAL_SAMPLE_INTERVAL_MS;
                if due {
                    &&& final(self).ring_view() == old(self).ring_view().update(
                        old(self).idx_view(),
                        old(tick).pedal_sample,
                    )
                    &&& final(self).idx_view() == (old(self).idx_view() + 1) % 5
                    &&& final(self).last_read_view() == old(tick).now_ms
                } else {
                    &&& final(self).ring_view() == old(self).ring_view()
                    &&& final(self).idx_view() == old(self).idx_view()
                    &&& final(self).last_read_view() == old(self).last_read_view()
                    &&& final(self).pressed_view() == old(self).pressed_view()
                    &&& r == Ok::<(), DriverProcessError>(())
                }
            }),
            r matches Err(e) ==> e == DriverProcessError::BusError,
    {
        let mut k: u64 = 0;
        while k < MAX_DRAIN_PER_TICK
            invariant
                self.wf(),
                self.ring_view() == old(self).ring_view(),
                self.idx_view() == old(self).idx_view(),
                self.last_read_view() == old(self).last_read_view(),
                self.pressed_view() == old(self).pressed_view(),
                tick.now_ms == old(tick).now_ms,
                tick.serial_input == old(tick).serial_input,
                tick.pedal_sample == old(tick).pedal_sample,
                tick.wheel_rotation == old(tick).wheel_rotation,
                tick.wheel_button_1 == old(tick).wheel_button_1,
                tick.wheel_button_2 == old(tick).wheel_button_2,
                tick.actuator_writes == old(tick).actuator_writes,
            decreases MAX_DRAIN_PER_TICK - k,
        {
            match bus_try_recv(&self.subscription) {
                Some(m) => {
                    self.handle_message(&m, tick);
                },
                None => {
                    break ;
                },
            }
            k += 1;
        }
        match self.sample_tick(tick.now_ms, tick.pedal_sample) {
            Some(_) => {
                let message = self.as_state_transfer();
                if bus_send(&self.bus, message) {
                    Ok(())
                } else {
                    Err(DriverProcessError::BusError)
                }
            },
            None => Ok(()),
        }
    }
}

} // verus!
