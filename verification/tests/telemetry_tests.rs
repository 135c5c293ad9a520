use ft_vr::messages::VrMessage;
use ft_vr::telemetry::{GyroscopeDataframe, GyroscopeDataframeError, HeadsetGyroscopeDeviceDriver};

fn parsed(line: &str) -> GyroscopeDataframe {
    GyroscopeDataframe::try_from(line.as_bytes()).expect("frame should parse")
}

#[test]
fn calibrated_sample_matches_degrees_to_radians() {
    let df = parsed("0x10.0:-5.0:0.0");
    // fixed point: microradians, rounded down from microdegrees * pi/180
    assert_eq!(df.yaw, 174_532);
    assert_eq!(df.pitch, -87_266);
    assert_eq!(df.roll, 0);
    // agrees with the float conversion within one microradian
    let expected_yaw = 10.0f64.to_radians() * 1_000_000.0;
    assert!((df.yaw as f64 - expected_yaw).abs() <= 1.0);
    let expected_pitch = (-5.0f64).to_radians() * 1_000_000.0;
    assert!((df.pitch as f64 - expected_pitch).abs() <= 1.0);
}

#[test]
fn missing_prefix_is_start_invalid() {
    let r = GyroscopeDataframe::try_from("10.0:-5.0:0.0".as_bytes());
    assert_eq!(r.unwrap_err(), GyroscopeDataframeError::StartInvalid);
}

#[test]
fn two_fields_is_len_invalid() {
    let r = GyroscopeDataframe::try_from("0x1:2".as_bytes());
    assert_eq!(
        r.unwrap_err(),
        GyroscopeDataframeError::LenInvalid { expected: 3, got: 2 }
    );
}

#[test]
fn four_fields_is_len_invalid() {
    let r = GyroscopeDataframe::try_from("0x1:2:3:4".as_bytes());
    assert_eq!(
        r.unwrap_err(),
        GyroscopeDataframeError::LenInvalid { expected: 3, got: 4 }
    );
}

#[test]
fn non_numeric_field_is_num_format() {
    let r = GyroscopeDataframe::try_from("0xa:2:3".as_bytes());
    assert_eq!(r.unwrap_err(), GyroscopeDataframeError::NumFormat);
}

#[test]
fn fields_tolerate_spaces_and_signs() {
    let df = parsed("0x 1.5 :+2:-0.000001");
    assert_eq!(df.yaw, 26_179);  // 1.5 deg
    assert_eq!(df.pitch, 34_906);  // 2 deg
    assert_eq!(df.roll, 0);  // one microdegree rounds down to zero microradians
}

#[test]
fn line_terminators_are_trimmed() {
    let df = parsed("0x1:1:1\r");
    assert!(df.yaw == 17_453 && df.pitch == 17_453 && df.roll == 17_453);
}

#[test]
fn zero_command_makes_same_frame_read_zero() {
    let bus: pub_sub::PubSub<VrMessage> = pub_sub::PubSub::new();
    let mut d = HeadsetGyroscopeDeviceDriver::new(&bus);
    d.process_tick("0x10.0:-5.0:0.0\n".as_bytes()).expect("tick");
    assert_eq!(d.last_data.yaw, 174_532);
    bus.send(VrMessage::SetGyroscopeZero {}).expect("send");
    d.process_tick("0x10.0:-5.0:0.0\n".as_bytes()).expect("tick");
    assert_eq!(d.last_data, GyroscopeDataframe { yaw: 0, pitch: 0, roll: 0 });
}

#[test]
fn partial_lines_are_kept_across_ticks() {
    let bus: pub_sub::PubSub<VrMessage> = pub_sub::PubSub::new();
    let mut d = HeadsetGyroscopeDeviceDriver::new(&bus);
    d.process_tick("0x2.0:".as_bytes()).expect("tick");
    assert_eq!(d.last_data.yaw, 0);  // no complete line yet
    d.process_tick("0.0:0.0\n".as_bytes()).expect("tick");
    assert_eq!(d.last_data.yaw, 34_906);
}

#[test]
fn driver_publishes_latest_reading() {
    let bus: pub_sub::PubSub<VrMessage> = pub_sub::PubSub::new();
    let observer = bus.subscribe();
    let mut d = HeadsetGyroscopeDeviceDriver::new(&bus);
    d.process_tick("0x1:0:0\n0x3:0:0\n".as_bytes()).expect("tick");
    match observer.try_recv().expect("one reading") {
        VrMessage::GyroscopeReading { yaw, .. } => assert_eq!(yaw, 52_359),  // 3 degrees
        other => panic!("unexpected message: {:?}", other),
    }
    // one message per tick, not per line
    assert!(observer.try_recv().is_err());
}

#[test]
fn bad_line_reports_dataframe_error() {
    let bus: pub_sub::PubSub<VrMessage> = pub_sub::PubSub::new();
    let mut d = HeadsetGyroscopeDeviceDriver::new(&bus);
    let r = d.process_tick("garbage\n".as_bytes());
    assert!(r.is_err());
}
