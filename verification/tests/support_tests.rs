use ft_vr::api::AsyncBus;
use ft_vr::drivers::{ActuatorOutput, ActuatorWrite, DriverProcessError, write_failure_error};
use ft_vr::decimal::{i32_string, u64_string};
use ft_vr::messages::{Interface, ModelType, RenderSettingsData, VrMessage};
use ft_vr::mjpeg::{find_jpeg_end, find_jpeg_start};
use ft_vr::models::{YoloV8ONNXModelType, YoloV8ONNXQuantization};
use ft_vr::numeric::{clamp_i64, div_trunc_i64, remap_i64};
use ft_vr::profiling::Profiler;

#[test]
fn division_rounds_toward_zero() {
    assert_eq!(div_trunc_i64(7, 2), 3);
    assert_eq!(div_trunc_i64(-7, 2), -3);
    assert_eq!(div_trunc_i64(7, -2), -3);
    assert_eq!(div_trunc_i64(-7, -2), 3);
}

#[test]
fn clamp_holds_the_bounds() {
    assert_eq!(clamp_i64(5, 0, 10), 5);
    assert_eq!(clamp_i64(-5, 0, 10), 0);
    assert_eq!(clamp_i64(15, 0, 10), 10);
}

#[test]
fn remap_scales_between_ranges() {
    assert_eq!(remap_i64(50, 0, 200, 0, 180), 45);
    assert_eq!(remap_i64(0, -1_500_000, 1_500_000, -90, 90), 0);
    assert_eq!(remap_i64(1_500_000, -1_500_000, 1_500_000, -90, 90), 90);
    assert_eq!(remap_i64(-1_500_000, -1_500_000, 1_500_000, -90, 90), -90);
}

#[test]
fn decimal_rendering_is_exact() {
    assert_eq!(u64_string(0), "0");
    assert_eq!(u64_string(1234), "1234");
    assert_eq!(i32_string(0), "0");
    assert_eq!(i32_string(42), "42");
    assert_eq!(i32_string(-5), "-5");
}

#[test]
fn jpeg_markers_are_found_in_order() {
    let buf: Vec<u8> = vec![0x00, 0xFF, 0xD8, 0x01, 0x02, 0xFF, 0xD9, 0x09];
    assert_eq!(find_jpeg_start(&buf), Some(1));
    assert_eq!(find_jpeg_end(&buf, 1), Some(6));
    assert_eq!(find_jpeg_end(&buf, 7), None);
    let empty: Vec<u8> = Vec::new();
    assert_eq!(find_jpeg_start(&empty), None);
}

#[test]
fn model_paths_follow_family_and_quantization() {
    assert_eq!(
        YoloV8ONNXModelType::V8m(YoloV8ONNXQuantization::Int8).to_model_path(),
        "./onnx/yolov8m-seg-int8.onnx"
    );
    assert_eq!(
        YoloV8ONNXModelType::V11s(YoloV8ONNXQuantization::Full).to_model_path(),
        "./onnx/yolo11s-seg.onnx"
    );
    assert_eq!(
        YoloV8ONNXModelType::V11m(YoloV8ONNXQuantization::Half).to_model_path(),
        "./onnx/yolo11m-seg-half.onnx"
    );
}

#[test]
fn default_settings_match_a_fresh_installation() {
    let d = RenderSettingsData::default();
    assert_eq!(d.left_eye.image_width, 400);
    assert_eq!(d.left_eye.image_height, 480);
    assert!(matches!(d.model, ModelType::YoloV8mInt8ONNX));
    assert_eq!(d.model_configuration.confidence_ppm, 250_000);
    assert_eq!(d.model_configuration.iou_ppm, 700_000);
    assert_eq!(d.model_configuration.kconf_ppm, 550_000);
    assert_eq!(d.pedal_calibration_lower, 0);
    assert_eq!(d.pedal_calibration_upper, 0);
    assert_eq!(d.speed_mul, 1000);
    assert!(d.leaderboard.is_empty());
}

#[test]
fn profiler_reports_elapsed_and_lap_times() {
    let mut p = Profiler::new(true, 1000);
    assert_eq!(p.print_elapsed("draw", 1500).expect("report"), "[draw] 500ms (lap: 500ms)");
    assert_eq!(p.print_elapsed("draw", 2500).expect("report"), "[draw] 1500ms (lap: 1000ms)");
}

#[test]
fn disabled_profiler_stays_silent() {
    let mut p = Profiler::new(false, 1000);
    assert!(p.print_elapsed("draw", 1500).is_none());
}

#[test]
fn a_failed_write_is_tagged_with_its_output() {
    let w = ActuatorWrite { output: ActuatorOutput::CamYaw, value: 45, is_offset: false };
    assert_eq!(write_failure_error(&w), DriverProcessError::SwarmError(ActuatorOutput::CamYaw));
}

#[test]
fn interface_request_and_confirm_round_trip() {
    let bus: pub_sub::PubSub<VrMessage> = pub_sub::PubSub::new();
    let fulfiller = bus.subscribe();
    let mut ab = AsyncBus::new(&bus);
    ab.open_interface(Interface::InputNumberAndConfirm { text: "PIN: ".to_string() })
        .expect("request");
    // the fulfiller sees the request, renders it, and confirms one value
    match fulfiller.try_recv().expect("request") {
        VrMessage::ShowRenderedInterface {
            interface: Interface::InputNumberAndConfirm { text },
        } => assert_eq!(text, "PIN: "),
        other => panic!("unexpected message: {:?}", other),
    }
    bus.send(VrMessage::InterfaceConfirm { data: 7 }).expect("confirm");
    // the requester polls, discarding its own request on the way
    let mut confirmed = None;
    for _ in 0..8 {
        if let Some(v) = ab.poll_confirm() {
            confirmed = Some(v);
            break;
        }
    }
    assert_eq!(confirmed, Some(7));
}
