//! The message schema shared over the broadcast bus, together with the
//! persisted settings document that several drivers read and update.
//!
//! Angles travel as signed microradians, so that calibration arithmetic is
//! exact; fractional ratios (model thresholds, the speed multiplier) travel
//! as parts-per-million or per-mille integers.

use vstd::prelude::*;

verus! {

/// Offsets pushed to the three servo outputs of the vehicle rig.
#[derive(Clone, Copy, Debug, PartialEq, Eq, Structural)]
pub struct ServoConfig {
    pub steer_offset: i32,
    pub yaw_offset: i32,
    pub pitch_offset: i32,
}

/// Pixel dimensions of one rendered eye.
#[derive(Clone, Copy, Debug, PartialEq, Eq, Structural)]
pub struct EyeSettings {
    pub image_width: u32,
    pub image_height: u32,
}

/// One finished run on the leaderboard; `time_ms` is the elapsed wall time
/// in milliseconds.
#[derive(Clone, Debug)]
pub struct LeaderboardEntry {
    pub name: String,
    pub time_ms: u64,
    pub id: u32,
}

/// Thresholds of the segmentation model, in parts per million of 1.0.
#[derive(Clone, Copy, Debug, PartialEq, Eq, Structural)]
pub struct ModelConfiguration {
    pub confidence_ppm: u32,
    pub iou_ppm: u32,
    pub kconf_ppm: u32,
}

/// The closed set of segmentation model builds that can be loaded.
#[derive(Clone, Copy, Debug, PartialEq, Eq, Structural)]
pub enum ModelType {
    YoloV8mInt8ONNX,
    YoloV8mHalfONNX,
    YoloV8mFullONNX,
    YoloV11sInt8ONNX,
    YoloV11sHalfONNX,
    YoloV11sFullONNX,
    YoloV11mInt8ONNX,
    YoloV11mHalfONNX,
    YoloV11mFullONNX,
}

/// Which end of the pedal's travel a calibration command refers to.
#[derive(Clone, Copy, Debug, PartialEq, Eq, Structural)]
pub enum PedalPosition {
    Lower,
    Upper,
}

/// Severity attached to a log message on the bus.
#[derive(Clone, Copy, Debug, PartialEq, Eq, Structural)]
pub enum LogMessageType {
    Info,
    Error,
    Warning,
    Debug,
}

/// Point-in-time presence snapshot of one registered driver kind.
#[derive(Clone, Debug)]
pub enum DriverState {
    Online { name: String },
    Offline { name: String },
}

impl DriverState {
    /// The driver name this snapshot speaks about, whichever variant it is.
    pub open spec fn name_spec(&self) -> Seq<char> {
        match self {
            DriverState::Online { name } => name@,
            DriverState::Offline { name } => name@,
        }
    }

    /// True when the snapshot reports the driver as present.
    pub open spec fn is_online(&self) -> bool {
        self is Online
    }
}

/// A requested modal user interaction, described as data: the fulfiller
/// renders it however it wants and reports one confirmed value back.
#[derive(Clone, Debug)]
pub enum Interface {
    InputNumberAndConfirm { text: String },
}

/// The persisted settings document: actuator offsets, pedal calibration
/// bounds, render geometry and the leaderboard. `speed_mul` is per-mille.
#[derive(Clone, Debug)]
pub struct RenderSettingsData {
    pub left_eye: EyeSettings,
    pub right_eye: EyeSettings,
    pub v_offset: i32,
    pub space_between_back: i32,
    pub space_between_front: i32,
    pub space_between_ui: i32,
    pub model: ModelType,
    pub model_configuration: ModelConfiguration,
    pub servo_config: ServoConfig,
    pub pedal_calibration_lower: i32,
    pub pedal_calibration_upper: i32,
    pub speed_mul: u32,
    pub leaderboard: Vec<LeaderboardEntry>,
}

/// What the settings of a fresh installation hold.
pub open spec fn is_default_render_settings(r: RenderSettingsData) -> bool {
    &&& r.left_eye == (EyeSettings { image_width: 400, image_height: 480 })
    &&& r.right_eye == (EyeSettings { image_width: 400, image_height: 480 })
    &&& r.v_offset == 0
    &&& r.space_between_back == 0
    &&& r.space_between_front == 0
    &&& r.space_between_ui == 0
    &&& r.model == ModelType::YoloV8mInt8ONNX
    &&& r.model_configuration == (ModelConfiguration {
        confidence_ppm: 250000u32,
        iou_ppm: 700000u32,
        kconf_ppm: 550000u32,
    })
    &&& r.servo_config == (ServoConfig { steer_offset: 0, yaw_offset: 0, pitch_offset: 0 })
    &&& r.pedal_calibration_lower == 0
    &&& r.pedal_calibration_upper == 0
    &&& r.speed_mul == 1000
    &&& r.leaderboard@ == Seq::<LeaderboardEntry>::empty()
}

/// The two settings documents agree on everything but the pedal
/// calibration bounds.
pub open spec fn settings_eq_except_pedal(a: RenderSettingsData, b: RenderSettingsData) -> bool {
    &&& a.left_eye == b.left_eye
    &&& a.right_eye == b.right_eye
    &&& a.v_offset == b.v_offset
    &&& a.space_between_back == b.space_between_back
    &&& a.space_between_front == b.space_between_front
    &&& a.space_between_ui == b.space_between_ui
    &&& a.model == b.model
    &&& a.model_configuration == b.model_configuration
    &&& a.servo_config == b.servo_config
    &&& a.speed_mul == b.speed_mul
    &&& a.leaderboard@ == b.leaderboard@
}

/// The two settings documents agree on everything but the leaderboard.
pub open spec fn settings_eq_except_leaderboard(
    a: RenderSettingsData,
    b: RenderSettingsData,
) -> bool {
    &&& a.left_eye == b.left_eye
    &&& a.right_eye == b.right_eye
    &&& a.v_offset == b.v_offset
    &&& a.space_between_back == b.space_between_back
    &&& a.space_between_front == b.space_between_front
    &&& a.space_between_ui == b.space_between_ui
    &&& a.model == b.model
    &&& a.model_configuration == b.model_configuration
    &&& a.servo_config == b.servo_config
    &&& a.pedal_calibration_lower == b.pedal_calibration_lower
    &&& a.pedal_calibration_upper == b.pedal_calibration_upper
    &&& a.speed_mul == b.speed_mul
}

/// The two settings documents agree on everything but the servo offsets.
pub open spec fn settings_eq_except_servo(a: RenderSettingsData, b: RenderSettingsData) -> bool {
    &&& a.left_eye == b.left_eye
    &&& a.right_eye == b.right_eye
    &&& a.v_offset == b.v_offset
    &&& a.space_between_back == b.space_between_back
    &&& a.space_between_front == b.space_between_front
    &&& a.space_between_ui == b.space_between_ui
    &&& a.model == b.model
    &&& a.model_configuration == b.model_configuration
    &&& a.pedal_calibration_lower == b.pedal_calibration_lower
    &&& a.pedal_calibration_upper == b.pedal_calibration_upper
    &&& a.speed_mul == b.speed_mul
    &&& a.leaderboard@ == b.leaderboard@
}

impl Default for RenderSettingsData {
    /// The settings a fresh installation starts from.
    fn default() -> (r: RenderSettingsData)
        ensures
            is_default_render_settings(r),
    {
        let r = RenderSettingsData {
            left_eye: EyeSettings { image_width: 400, image_height: 480 },
            right_eye: EyeSettings { image_width: 400, image_height: 480 },
            v_offset: 0,
            space_between_back: 0,
            space_between_front: 0,
            space_between_ui: 0,
            model: ModelType::YoloV8mInt8ONNX,
            model_configuration: ModelConfiguration {
                confidence_ppm: 250000,
                iou_ppm: 700000,
                kconf_ppm: 550000,
            },
            servo_config: ServoConfig { steer_offset: 0, yaw_offset: 0, pitch_offset: 0 },
            pedal_calibration_lower: 0,
            pedal_calibration_upper: 0,
            speed_mul: 1000,
            leaderboard: Vec::new(),
        };
        r
    }
}

/// Every event and command that crosses the broadcast bus. Messages are
/// immutable values; the bus hands each subscriber its own copy.
#[derive(Clone, Debug)]
pub enum VrMessage {
    /// Calibrated orientation sample, in microradians.
    GyroscopeReading { yaw: i64, pitch: i64, roll: i64, temperature: i32 },
    /// Command: take the current raw orientation as the new zero offset.
    SetGyroscopeZero {},
    VrDistanceConfiguration {
        distance_between_b: i32,
        distance_between_f: i32,
        distance_between_u: i32,
        v_offset: i32,
    },
    ModelConfiguration { model: ModelType, config: ModelConfiguration },
    Log { message: String, message_type: LogMessageType },
    PushRenderSettings { data: RenderSettingsData },
    WheelState { rotation: i128, left_button: bool, right_button: bool, flipped: bool },
    DriverStateUpdate { states: Vec<DriverState> },
    /// Render rate, in frames per thousand seconds.
    FPSUpdate { fps: u32 },
    ResetWheel {},
    FlipWheelBtns { flip: bool },
    /// How far the pedal is pressed, 0 to 100.
    PedalState { pressed: u8 },
    ZeroPedal { position: PedalPosition },
    ShowRenderedInterface { interface: Interface },
    InterfaceConfirm { data: i32 },
    AskPin { length: u8 },
    ConfirmPin { pin: String },
    SetServoConfig { config: ServoConfig },
    TimerStart { name: String },
    TimerEnd {},
    PushTimerEntry { entry: LeaderboardEntry },
    DeleteTimerEntry { id: u32 },
}

} // verus!
