//! Vehicle rig driver: smooths the last five orientation samples, remaps
//! them and the wheel rotation onto servo ranges, and decides debounced
//! physical writes — only on change, only after a minimum interval, and
//! never while a modal interface is open.

use vstd::prelude::*;
use crate::bus::{bus_subscribe, bus_try_recv};
use crate::drivers::{
    ActuatorOutput, ActuatorWrite, DeviceDriver, DriverProcessError, DriverTick,
    MAX_DRAIN_PER_TICK,
};
use crate::messages::{ServoConfig, VrMessage, settings_eq_except_servo};
use crate::numeric::{
    clamp_i64, clamp_spec, div_trunc, div_trunc_i64, lemma_div_trunc_range, remap_i64, remap_spec,
};
use crate::telemetry::MAX_FIELD_URAD;

verus! {

/// Milliseconds that must pass between two rounds of position writes.
pub const CAR_WRITE_INTERVAL_MS: u64 = 100;

/// Half-range of the smoothed sensor input, in microradians (1.5 rad).
pub const SENSOR_RANGE_URAD: i64 = 1_500_000;

/// Half-range of the camera servos, in degrees.
pub const SERVO_RANGE_DEG: i64 = 90;

/// Largest magnitude an orientation sample is held to before smoothing:
/// the parser's range for calibrated samples.
pub const CAR_SAMPLE_BOUND: i64 = 2 * MAX_FIELD_URAD;

/// Wheel rotations are held to this magnitude before remapping.
pub const WHEEL_CLAMP: i64 = 1_000_000;

/// Sum of a five-slot ring of samples.
pub open spec fn sum5l(s: Seq<i64>) -> int {
    s[0] + s[1] + s[2] + s[3] + s[4]
}

/// Mean of a five-slot ring, rounding toward zero.
pub open spec fn mean5l(s: Seq<i64>) -> int {
    div_trunc(sum5l(s), 5)
}

/// The camera mapping: a smoothed microradian angle onto servo degrees.
pub open spec fn camera_angle(mean: int) -> int {
    remap_spec(mean, -SENSOR_RANGE_URAD as int, SENSOR_RANGE_URAD as int, -SERVO_RANGE_DEG as int, SERVO_RANGE_DEG as int)
}

/// The steering mapping: a clamped wheel rotation onto servo degrees.
pub open spec fn steering_angle(rotation: int) -> int {
    remap_spec(clamp_spec(rotation, -WHEEL_CLAMP as int, WHEEL_CLAMP as int), 0, 200, 0, 180)
}

/// The throttle a pedal percentage commands: one and a half times it.
pub open spec fn throttle_of(pressed: int) -> int {
    (3 * pressed) / 2
}

/// Driver of the vehicle rig's four outputs. The caller performs the
/// decided writes and reports failures tagged with the output.
pub struct CarDriver {
    pub subscription: pub_sub::Subscription<VrMessage>,
    pub last_5_yaws: Vec<i64>,
    pub last_5_pitches: Vec<i64>,
    pub wheel_pos: i128,
    pub idx: usize,
    pub old_offset_steer: i32,
    pub old_offset_cam_yaw: i32,
    pub old_offset_cam_pitch: i32,
    pub interface_open: bool,
    pub last_write_ms: u64,
    pub mapped_steer: i32,
    pub final_pitch: i32,
    pub final_yaw: i32,
    pub throttle: i32,
    pub reverse: bool,
    pub last_yaw: i32,
    pub last_pitch: i32,
    pub last_throttle: i32,
    pub last_steering: i32,
}

/// The throttle value actually commanded: negated when reversing.
pub open spec fn signed_throttle(d: CarDriver) -> int {
    if d.reverse {
        -(d.throttle as int)
    } else {
        d.throttle as int
    }
}

/// The debounced position writes one round decides: each output only when
/// its target differs from what was last written, in a fixed order.
pub open spec fn position_writes(d: CarDriver) -> Seq<ActuatorWrite> {
    let pitch: Seq<ActuatorWrite> = if d.last_pitch != d.final_pitch {
        seq![ActuatorWrite { output: ActuatorOutput::CamPitch, value: d.final_pitch, is_offset: false }]
    } else {
        Seq::empty()
    };
    let yaw: Seq<ActuatorWrite> = if d.last_yaw != d.final_yaw {
        seq![ActuatorWrite { output: ActuatorOutput::CamYaw, value: d.final_yaw, is_offset: false }]
    } else {
        Seq::empty()
    };
    let steer: Seq<ActuatorWrite> = if d.last_steering != d.mapped_steer {
        seq![ActuatorWrite { output: ActuatorOutput::Steering, value: d.mapped_steer, is_offset: false }]
    } else {
        Seq::empty()
    };
    let throttle: Seq<ActuatorWrite> = if d.last_throttle != signed_throttle(d) {
        seq![ActuatorWrite { output: ActuatorOutput::Throttle, value: signed_throttle(d) as i32, is_offset: false }]
    } else {
        Seq::empty()
    };
    pitch + yaw + steer + throttle
}

/// The offset writes one round decides: each servo offset only when the
/// persisted value differs from what was last pushed.
pub open spec fn offset_writes(d: CarDriver, sc: ServoConfig) -> Seq<ActuatorWrite> {
    let steer: Seq<ActuatorWrite> = if sc.steer_offset != d.old_offset_steer {
        seq![ActuatorWrite { output: ActuatorOutput::Steering, value: sc.steer_offset, is_offset: true }]
    } else {
        Seq::empty()
    };
    let yaw: Seq<ActuatorWrite> = if sc.yaw_offset != d.old_offset_cam_yaw {
        seq![ActuatorWrite { output: ActuatorOutput::CamYaw, value: sc.yaw_offset, is_offset: true }]
    } else {
        Seq::empty()
    };
    let pitch: Seq<ActuatorWrite> = if sc.pitch_offset != d.old_offset_cam_pitch {
        seq![ActuatorWrite { output: ActuatorOutput::CamPitch, value: sc.pitch_offset, is_offset: true }]
    } else {
        Seq::empty()
    };
    steer + yaw + pitch
}

impl CarDriver {
    pub fn new(bus: &pub_sub::PubSub<VrMessage>) -> (d: CarDriver)
        ensures
            d.wf(),
            !d.interface_open,
            d.last_write_ms == 0,
            d.idx == 0,
            d.last_5_yaws@ =~= seq![0i64, 0i64, 0i64, 0i64, 0i64],
            d.last_5_pitches@ =~= seq![0i64, 0i64, 0i64, 0i64, 0i64],
            d.wheel_pos == 0 && d.mapped_steer == 0 && d.final_pitch == 0 && d.final_yaw == 0,
            d.throttle == 0 && !d.reverse,
            d.last_yaw == 0 && d.last_pitch == 0 && d.last_throttle == 0 && d.last_steering == 0,
            d.old_offset_steer == 0 && d.old_offset_cam_yaw == 0 && d.old_offset_cam_pitch == 0,
    {
        let mut yaws: Vec<i64> = Vec::new();
        yaws.push(0);
        yaws.push(0);
        yaws.push(0);
        yaws.push(0);
        yaws.push(0);
        let mut pitches: Vec<i64> = Vec::new();
        pitches.push(0);
        pitches.push(0);
        pitches.push(0);
        pitches.push(0);
        pitches.push(0);
        CarDriver {
            subscription: bus_subscribe(bus),
            last_5_yaws: yaws,
            last_5_pitches: pitches,
            wheel_pos: 0,
            idx: 0,
            old_offset_steer: 0,
            old_offset_cam_yaw: 0,
            old_offset_cam_pitch: 0,
            interface_open: false,
            last_write_ms: 0,
            mapped_steer: 0,
            final_pitch: 0,
            final_yaw: 0,
            throttle: 0,
            reverse: false,
            last_yaw: 0,
            last_pitch: 0,
            last_throttle: 0,
            last_steering: 0,
        }
    }

    /// Mean of one smoothing ring.
    fn ring_mean(ring: &Vec<i64>) -> (r: i64)
        requires
            ring@.len() == 5,
            forall|i: int| 0 <= i < 5 ==> -CAR_SAMPLE_BOUND <= #[trigger] ring@[i] <= CAR_SAMPLE_BOUND,
        ensures
            r as int == mean5l(ring@),
            -CAR_SAMPLE_BOUND <= r <= CAR_SAMPLE_BOUND,
    {
        let sum: i64 = ring[0] + ring[1] + ring[2] + ring[3] + ring[4];
        proof {
            lemma_div_trunc_range(sum as int, 5, -CAR_SAMPLE_BOUND as int, CAR_SAMPLE_BOUND as int);
        }
        div_trunc_i64(sum, 5)
    }

    /// The camera mapping, with the result small enough for a servo word.
    fn camera_angle_exec(mean: i64) -> (r: i32)
        requires
            -CAR_SAMPLE_BOUND <= mean <= CAR_SAMPLE_BOUND,
        ensures
            r as int == camera_angle(mean as int),
    {
        let v = remap_i64(mean, -SENSOR_RANGE_URAD, SENSOR_RANGE_URAD, -SERVO_RANGE_DEG, SERVO_RANGE_DEG);
        proof {
            assert((mean + 1_500_000) * 180 <= 3_000_000 * 2_200_000 && (mean + 1_500_000) * 180
                >= 3_000_000 * (-2_200_000)) by (nonlinear_arith)
                requires
                    -34_906_586_000 <= mean <= 34_906_586_000,
            ;
            assert((mean - (-SENSOR_RANGE_URAD as int)) * (2 * SERVO_RANGE_DEG as int) == (mean
                + 1_500_000) * 180);
            lemma_div_trunc_range(
                (mean - (-SENSOR_RANGE_URAD as int)) * (2 * SERVO_RANGE_DEG as int),
                2 * SENSOR_RANGE_URAD as int,
                -2_200_000,
                2_200_000,
            );
        }
        v as i32
    }

    /// Apply one bus message: orientation samples feed the smoothing rings
    /// (and, unless a modal interface is open, the camera targets); wheel
    /// state feeds steering and reverse; pedal state feeds throttle;
    /// interface messages toggle write suppression; a servo-config command
    /// updates the settings document for persisting.
    pub fn handle_message(&mut self, m: &VrMessage, tick: &mut DriverTick)
        requires
            old(self).wf(),
        ensures
            final(self).wf(),
            final(self).subscription == old(self).subscription,
            final(self).last_write_ms == old(self).last_write_ms,
            final(self).last_yaw == old(self).last_yaw,
            final(self).last_pitch == old(self).last_pitch,
            final(self).last_throttle == old(self).last_throttle,
            final(self).last_steering == old(self).last_steering,
            final(self).old_offset_steer == old(self).old_offset_steer,
            final(self).old_offset_cam_yaw == old(self).old_offset_cam_yaw,
            final(self).old_offset_cam_pitch == old(self).old_offset_cam_pitch,
            final(tick).now_ms == old(tick).now_ms,
            final(tick).actuator_writes == old(tick).actuator_writes,
            final(tick).serial_input == old(tick).serial_input,
            final(tick).pedal_sample == old(tick).pedal_sample,
            final(tick).wheel_rotation == old(tick).wheel_rotation,
            final(tick).wheel_button_1 == old(tick).wheel_button_1,
            final(tick).wheel_button_2 == old(tick).wheel_button_2,
            match m {
                VrMessage::GyroscopeReading { yaw, pitch, .. } => {
                    let cy = clamp_spec(yaw as int, -CAR_SAMPLE_BOUND as int, CAR_SAMPLE_BOUND as int);
                    let cp = clamp_spec(
                        pitch as int,
                        -CAR_SAMPLE_BOUND as int,
                        CAR_SAMPLE_BOUND as int,
                    );
                    &&& final(self).last_5_yaws@ == old(self).last_5_yaws@.update(
                        old(self).idx as int,
                        cy as i64,
                    )
                    &&& final(self).last_5_pitches@ == old(self).last_5_pitches@.update(
                        old(self).idx as int,
                        cp as i64,
                    )
                    &&& final(self).idx == (old(self).idx + 1) % 5
                    &&& (if old(self).interface_open {
                        final(self).final_yaw == old(self).final_yaw && final(self).final_pitch
                            == old(self).final_pitch
                    } else {
                        final(self).final_yaw as int == camera_angle(
                            mean5l(final(self).last_5_yaws@),
                        ) && final(self).final_pitch as int == camera_angle(
                            mean5l(final(self).last_5_pitches@),
                        )
                    })
                    &&& final(self).interface_open == old(self).interface_open
                    &&& final(self).wheel_pos == old(self).wheel_pos
                    &&& final(self).mapped_steer == old(self).mapped_steer
                    &&& final(self).throttle == old(self).throttle
                    &&& final(self).reverse == old(self).reverse
                    &&& final(tick).config == old(tick).config
                    &&& final(tick).config_dirty == old(tick).config_dirty
                },
                VrMessage::ShowRenderedInterface { .. } => final(self).interface_open
                    && unchanged_but_interface(old(self), final(self)) && final(tick).config
                    == old(tick).config && final(tick).config_dirty == old(tick).config_dirty,
                VrMessage::InterfaceConfirm { .. } => !final(self).interface_open
                    && unchanged_but_interface(old(self), final(self)) && final(tick).config
                    == old(tick).config && final(tick).config_dirty == old(tick).config_dirty,
                VrMessage::WheelState { rotation, left_button, right_button, .. } => {
                    &&& final(self).wheel_pos == rotation
                    &&& final(self).mapped_steer as int == steering_angle(rotation as int)
                    &&& final(self).reverse == (*left_button || *right_button)
                    &&& final(self).interface_open == old(self).interface_open
                    &&& final(self).idx == old(self).idx
                    &&& final(self).last_5_yaws@ == old(self).last_5_yaws@
                    &&& final(self).last_5_pitches@ == old(self).last_5_pitches@
                    &&& final(self).final_yaw == old(self).final_yaw
                    &&& final(self).final_pitch == old(self).final_pitch
                    &&& final(self).throttle == old(self).throttle
                    &&& final(tick).config == old(tick).config
                    &&& final(tick).config_dirty == old(tick).config_dirty
                },
                VrMessage::PedalState { pressed } => final(self).throttle as int == throttle_of(
                    pressed as int,
                ) && unchanged_but_throttle(old(self), final(self)) && final(tick).config
                    == old(tick).config && final(tick).config_dirty == old(tick).config_dirty,
                VrMessage::SetServoConfig { config } => {
                    &&& final(tick).config.servo_config == config
                    &&& settings_eq_except_servo(final(tick).config, old(tick).config)
                    &&& final(tick).config_dirty
                    &&& unchanged_but_interface(old(self), final(self))
                    &&& final(self).interface_open == old(self).interface_open
                },
                _ => unchanged_but_interface(old(self), final(self)) && final(self).interface_open
                    == old(self).interface_open && final(tick).config == old(tick).config
                    && final(tick).config_dirty == old(tick).config_dirty,
            },
    {
        match m {
            VrMessage::GyroscopeReading { yaw, pitch, .. } => {
                let cy = clamp_i64(*yaw, -CAR_SAMPLE_BOUND, CAR_SAMPLE_BOUND);
                let cp = clamp_i64(*pitch, -CAR_SAMPLE_BOUND, CAR_SAMPLE_BOUND);
                self.last_5_yaws.set(self.idx, cy);
                self.last_5_pitches.set(self.idx, cp);
                self.idx = (self.idx + 1) % 5;
                if !self.interface_open {
                    let avg_yaw = Self::ring_mean(&self.last_5_yaws);
                    let avg_pitch = Self::ring_mean(&self.last_5_pitches);
                    self.final_yaw = Self::camera_angle_exec(avg_yaw);
                    self.final_pitch = Self::camera_angle_exec(avg_pitch);
                }
            },
            VrMessage::ShowRenderedInterface { .. } => {
                self.interface_open = true;
            },
            VrMessage::InterfaceConfirm { .. } => {
                self.interface_open = false;
            },
            VrMessage::WheelState { rotation, left_button, right_button, .. } => {
                self.wheel_pos = *rotation;
                let clamped: i64 = if *rotation < -(WHEEL_CLAMP as i128) {
                    -WHEEL_CLAMP
                } else if *rotation > WHEEL_CLAMP as i128 {
                    WHEEL_CLAMP
                } else {
                    (*rotation) as i64
                };
                let mapped = remap_i64(clamped, 0, 200, 0, 180);
                proof {
                    lemma_div_trunc_range(
                        (clamped as int) * 180,
                        200,
                        -900_000,
                        900_000,
                    );
                }
                self.mapped_steer = mapped as i32;
                self.reverse = *left_button || *right_button;
            },
            VrMessage::PedalState { pressed } => {
                self.throttle = ((*pressed as u32) * 3 / 2) as i32;
            },
            VrMessage::SetServoConfig { config } => {
                tick.config.servo_config = *config;
                tick.config_dirty = true;
            },
            _ => {},
        }
    }

    /// The debounced write round: nothing while the interval has not
    /// passed or a modal interface is open; otherwise each output whose
    /// target changed since it was last written, and the interval restarts.
    pub fn write_outputs(&mut self, tick: &mut DriverTick)
        requires
            old(self).wf(),
        ensures
            final(self).wf(),
            old(self).interface_open ==> final(tick).actuator_writes == old(tick).actuator_writes,
            ({
                let due = old(tick).now_ms >= old(self).last_write_ms && old(tick).now_ms
                    - old(self).last_write_ms > CAR_WRITE_INTERVAL_MS;
                if due && !old(self).interface_open {
                    &&& final(tick).actuator_writes@ == old(tick).actuator_writes@
                        + position_writes(*old(self))
                    &&& final(self).last_pitch == old(self).final_pitch
                    &&& final(self).last_yaw == old(self).final_yaw
                    &&& final(self).last_steering == old(self).mapped_steer
                    &&& final(self).last_throttle as int == signed_throttle(*old(self))
                    &&& final(self).last_write_ms == old(tick).now_ms
                } else {
                    &&& final(tick).actuator_writes == old(tick).actuator_writes
                    &&& *final(self) == *old(self)
                }
            }),
            final(tick).config == old(tick).config,
            final(tick).config_dirty == old(tick).config_dirty,
            final(tick).now_ms == old(tick).now_ms,
            final(tick).serial_input == old(tick).serial_input,
            final(tick).pedal_sample == old(tick).pedal_sample,
            final(tick).wheel_rotation == old(tick).wheel_rotation,
            final(tick).wheel_button_1 == old(tick).wheel_button_1,
            final(tick).wheel_button_2 == old(tick).wheel_button_2,
            unchanged_by_writes(old(self), final(self)),
    {
        let due = tick.now_ms >= self.last_write_ms && tick.now_ms - self.last_write_ms
            > CAR_WRITE_INTERVAL_MS;
        if due && !self.interface_open {
            if self.last_pitch != self.final_pitch {
                self.last_pitch = self.final_pitch;
                tick.actuator_writes.push(
                    ActuatorWrite {
                        output: ActuatorOutput::CamPitch,
                        value: self.final_pitch,
                        is_offset: false,
                    },
                );
            }
            if self.last_yaw != self.final_yaw {
                self.last_yaw = self.final_yaw;
                tick.actuator_writes.push(
                    ActuatorWrite {
                        output: ActuatorOutput::CamYaw,
                        value: self.final_yaw,
                        is_offset: false,
                    },
                );
            }
            if self.last_steering != self.mapped_steer {
                self.last_steering = self.mapped_steer;
                tick.actuator_writes.push(
                    ActuatorWrite {
                        output: ActuatorOutput::Steering,
                        value: self.mapped_steer,
                        is_offset: false,
                    },
                );
            }
            let final_throttle: i32 = if self.reverse {
                -self.throttle
            } else {
                self.throttle
            };
            if self.last_throttle != final_throttle {
                self.last_throttle = final_throttle;
                tick.actuator_writes.push(
                    ActuatorWrite {
                        output: ActuatorOutput::Throttle,
                        value: final_throttle,
                        is_offset: false,
                    },
                );
            }
            self.last_write_ms = tick.now_ms;
            proof {
                assert(tick.actuator_writes@ =~= old(tick).actuator_writes@ + position_writes(
                    *old(self),
                ));
            }
        }
    }

    /// Push any servo offset whose persisted value changed since it was
    /// last pushed; runs every tick, interface open or not.
    pub fn apply_offsets(&mut self, tick: &mut DriverTick)
        requires
            old(self).wf(),
        ensures
            final(self).wf(),
            final(tick).actuator_writes@ == old(tick).actuator_writes@ + offset_writes(
                *old(self),
                old(tick).config.servo_config,
            ),
            final(self).old_offset_steer == old(tick).config.servo_config.steer_offset,
            final(self).old_offset_cam_yaw == old(tick).config.servo_config.yaw_offset,
            final(self).old_offset_cam_pitch == old(tick).config.servo_config.pitch_offset,
            final(tick).config == old(tick).config,
            final(tick).config_dirty == old(tick).config_dirty,
            final(tick).now_ms == old(tick).now_ms,
            final(tick).serial_input == old(tick).serial_input,
            final(tick).pedal_sample == old(tick).pedal_sample,
            final(tick).wheel_rotation == old(tick).wheel_rotation,
            final(tick).wheel_button_1 == old(tick).wheel_button_1,
            final(tick).wheel_button_2 == old(tick).wheel_button_2,
            unchanged_by_offsets(old(self), final(self)),
    {
        let sc = ServoConfig {
            steer_offset: tick.config.servo_config.steer_offset,
            yaw_offset: tick.config.servo_config.yaw_offset,
            pitch_offset: tick.config.servo_config.pitch_offset,
        };
        if sc.steer_offset != self.old_offset_steer {
            self.old_offset_steer = sc.steer_offset;
            tick.actuator_writes.push(
                ActuatorWrite {
                    output: ActuatorOutput::Steering,
                    value: sc.steer_offset,
                    is_offset: true,
                },
            );
        }
        if sc.yaw_offset != self.old_offset_cam_yaw {
            self.old_offset_cam_yaw = sc.yaw_offset;
            tick.actuator_writes.push(
                ActuatorWrite {
                    output: ActuatorOutput::CamYaw,
                    value: sc.yaw_offset,
                    is_offset: true,
                },
            );
        }
        if sc.pitch_offset != self.old_offset_cam_pitch {
            self.old_offset_cam_pitch = sc.pitch_offset;
            tick.actuator_writes.push(
                ActuatorWrite {
                    output: ActuatorOutput::CamPitch,
                    value: sc.pitch_offset,
                    is_offset: true,
                },
            );
        }
        proof {
            assert(tick.actuator_writes@ =~= old(tick).actuator_writes@ + offset_writes(
                *old(self),
                old(tick).config.servo_config,
            ));
        }
    }
}

/// Everything but `interface_open` is the same.
pub open spec fn unchanged_but_interface(a: &CarDriver, b: &CarDriver) -> bool {
    &&& b.last_5_yaws@ == a.last_5_yaws@
    &&& b.last_5_pitches@ == a.last_5_pitches@
    &&& b.idx == a.idx
    &&& b.wheel_pos == a.wheel_pos
    &&& b.mapped_steer == a.mapped_steer
    &&& b.final_yaw == a.final_yaw
    &&& b.final_pitch == a.final_pitch
    &&& b.throttle == a.throttle
    &&& b.reverse == a.reverse
}

/// Everything but `throttle` is the same.
pub open spec fn unchanged_but_throttle(a: &CarDriver, b: &CarDriver) -> bool {
    &&& b.last_5_yaws@ == a.last_5_yaws@
    &&& b.last_5_pitches@ == a.last_5_pitches@
    &&& b.idx == a.idx
    &&& b.wheel_pos == a.wheel_pos
    &&& b.mapped_steer == a.mapped_steer
    &&& b.final_yaw == a.final_yaw
    &&& b.final_pitch == a.final_pitch
    &&& b.reverse == a.reverse
    &&& b.interface_open == a.interface_open
}

/// The write round touches only its bookkeeping fields.
pub open spec fn unchanged_by_writes(a: &CarDriver, b: &CarDriver) -> bool {
    &&& b.last_5_yaws@ == a.last_5_yaws@
    &&& b.last_5_pitches@ == a.last_5_pitches@
    &&& b.idx == a.idx
    &&& b.wheel_pos == a.wheel_pos
    &&& b.mapped_steer == a.mapped_steer
    &&& b.final_yaw == a.final_yaw
    &&& b.final_pitch == a.final_pitch
    &&& b.throttle == a.throttle
    &&& b.reverse == a.reverse
    &&& b.interface_open == a.interface_open
    &&& b.old_offset_steer == a.old_offset_steer
    &&& b.old_offset_cam_yaw == a.old_offset_cam_yaw
    &&& b.old_offset_cam_pitch == a.old_offset_cam_pitch
}

/// The offset round touches only the remembered offsets.
pub open spec fn unchanged_by_offsets(a: &CarDriver, b: &CarDriver) -> bool {
    &&& b.last_5_yaws@ == a.last_5_yaws@
    &&& b.last_5_pitches@ == a.last_5_pitches@
    &&& b.idx == a.idx
    &&& b.wheel_pos == a.wheel_pos
    &&& b.mapped_steer == a.mapped_steer
    &&& b.final_yaw == a.final_yaw
    &&& b.final_pitch == a.final_pitch
    &&& b.throttle == a.throttle
    &&& b.reverse == a.reverse
    &&& b.interface_open == a.interface_open
    &&& b.last_write_ms == a.last_write_ms
    &&& b.last_yaw == a.last_yaw
    &&& b.last_pitch == a.last_pitch
    &&& b.last_throttle == a.last_throttle
    &&& b.last_steering == a.last_steering
}

impl DeviceDriver for CarDriver {
    /// The smoothing rings keep five bounded samples each, the write index
    /// stays in range, and the throttle stays in the small range the pedal
    /// mapping produces.
    closed spec fn wf(&self) -> bool {
        &&& self.last_5_yaws@.len() == 5
        &&& self.last_5_pitches@.len() == 5
        &&& self.idx < 5
        &&& forall|i: int|
            0 <= i < 5 ==> -CAR_SAMPLE_BOUND <= #[trigger] self.last_5_yaws@[i]
                <= CAR_SAMPLE_BOUND
        &&& forall|i: int|
            0 <= i < 5 ==> -CAR_SAMPLE_BOUND <= #[trigger] self.last_5_pitches@[i]
                <= CAR_SAMPLE_BOUND
        &&& 0 <= self.throttle <= 400
    }

    /// One tick: drain pending bus messages into the smoothed state, and
    /// only then decide the debounced position writes and any offset
    /// pushes, so decisions reflect the freshest drained state. Decided
    /// writes are appended behind whatever the tick already carried.
    fn process(&mut self, tick: &mut DriverTick) -> (r: Result<(), DriverProcessError>)
        ensures
            final(tick).now_ms == old(tick).now_ms,
            final(tick).serial_input == old(tick).serial_input,
            final(tick).pedal_sample == old(tick).pedal_sample,
            final(tick).wheel_rotation == old(tick).wheel_rotation,
            final(tick).wheel_button_1 == old(tick).wheel_button_1,
            final(tick).wheel_button_2 == old(tick).wheel_button_2,
            final(tick).actuator_writes@.len() >= old(tick).actuator_writes@.len(),
            final(tick).actuator_writes@.take(old(tick).actuator_writes@.len() as int) == old(
                tick,
            ).actuator_writes@,
            final(self).old_offset_steer == final(tick).config.servo_config.steer_offset,
            final(self).old_offset_cam_yaw == final(tick).config.servo_config.yaw_offset,
            final(self).old_offset_cam_pitch == final(tick).config.servo_config.pitch_offset,
            r == Ok::<(), DriverProcessError>(()),
    {
        let mut k: u64 = 0;
        while k < MAX_DRAIN_PER_TICK
            invariant
                self.wf(),
                tick.now_ms == old(tick).now_ms,
                tick.serial_input == old(tick).serial_input,
                tick.pedal_sample == old(tick).pedal_sample,
                tick.wheel_rotation == old(tick).wheel_rotation,
                tick.wheel_button_1 == old(tick).wheel_button_1,
                tick.wheel_button_2 == old(tick).wheel_button_2,
                tick.actuator_writes == old(tick).actuator_writes,
            decreases MAX_DRAIN_PER_TICK - k,
        {
            match bus_try_recv(&self.subscription) {
                Some(m) => {
                    self.handle_message(&m, tick);
                },
                None => {
                    break ;
                },
            }
            k += 1;
        }
        self.write_outputs(tick);
        self.apply_offsets(tick);
        proof {
            assert(tick.actuator_writes@.take(old(tick).actuator_writes@.len() as int)
                =~= old(tick).actuator_writes@);
        }
        Ok(())
    }
}

} // verus!
