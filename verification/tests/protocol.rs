use sds011::commands::Command;
use sds011::errors::ProtocolViolation;
use sds011::measurement::{decode_measurement, get_measurement};
use sds011::sensor::SensorInfo;
use sds011::synchronizer::{SyncProgress, Synchronizer, validate_frame};

/// A valid measurement frame: pm2.5 raw 0x0014 (20), pm10 raw 0x0032
/// (50), device id AB:CD, checksum 190.
fn measurement_frame() -> Vec<u8> {
    vec![0xAA, 0xC0, 0x14, 0x00, 0x32, 0x00, 0xAB, 0xCD, 190, 0xAB]
}

/// A valid response to a get-duty-cycle command: opcode 8, device id
/// A1:B2. 8 + 2 + 0xA1 + 0xB2 = 349; 349 mod 256 = 93.
fn duty_cycle_response() -> Vec<u8> {
    vec![0xAA, 0xC5, 8, 2, 0, 0, 0xA1, 0xB2, 93, 0xAB]
}

#[test]
fn empty_first_read_returns_empty() {
    let mut sync = Synchronizer::new(None);
    assert_eq!(sync.wanted(), 1);
    let progress = sync.advance(&vec![]).unwrap();
    assert!(matches!(progress, SyncProgress::Empty));
}

#[test]
fn synchronizer_assembles_measurement_frame() {
    let frame = measurement_frame();
    let mut sync = Synchronizer::new(None);
    // Leading garbage is tolerated without ending the scan.
    for garbage in [0x01u8, 0xFF, 0xAB] {
        assert!(matches!(sync.advance(&vec![garbage]).unwrap(), SyncProgress::Pending));
        assert_eq!(sync.wanted(), 1);
    }
    assert!(matches!(sync.advance(&vec![0xAA]).unwrap(), SyncProgress::Pending));
    assert_eq!(sync.wanted(), 1);
    assert!(matches!(sync.advance(&vec![0xC0]).unwrap(), SyncProgress::Pending));
    assert_eq!(sync.wanted(), 8);
    match sync.advance(&frame[2..10].to_vec()).unwrap() {
        SyncProgress::Frame(assembled) => assert_eq!(assembled, frame),
        _ => panic!("expected a complete frame"),
    }
}

#[test]
fn synchronizer_discards_false_start() {
    let mut sync = Synchronizer::new(None);
    assert!(matches!(sync.advance(&vec![0xAA]).unwrap(), SyncProgress::Pending));
    // A byte that is no direction marker drops the partial frame.
    assert!(matches!(sync.advance(&vec![0x42]).unwrap(), SyncProgress::Pending));
    assert_eq!(sync.wanted(), 1);
    // The scan resynchronizes on the next start marker.
    assert!(matches!(sync.advance(&vec![0xAA]).unwrap(), SyncProgress::Pending));
    assert!(matches!(sync.advance(&vec![0xC0]).unwrap(), SyncProgress::Pending));
    assert_eq!(sync.wanted(), 8);
}

#[test]
fn synchronizer_solicited_wants_response_marker() {
    // A solicited command is answered by 0xC5, not by a measurement push.
    let mut sync = Synchronizer::new(Some(Command::DutyCycle));
    assert!(matches!(sync.advance(&vec![0xAA]).unwrap(), SyncProgress::Pending));
    assert!(matches!(sync.advance(&vec![0xC0]).unwrap(), SyncProgress::Pending));
    assert_eq!(sync.wanted(), 1);
    assert!(matches!(sync.advance(&vec![0xAA]).unwrap(), SyncProgress::Pending));
    assert!(matches!(sync.advance(&vec![0xC5]).unwrap(), SyncProgress::Pending));
    assert_eq!(sync.wanted(), 8);
}

#[test]
fn synchronizer_request_awaits_measurement_push() {
    // A Request is answered by a measurement frame, marker 0xC0.
    let mut sync = Synchronizer::new(Some(Command::Request));
    assert!(matches!(sync.advance(&vec![0xAA]).unwrap(), SyncProgress::Pending));
    assert!(matches!(sync.advance(&vec![0xC0]).unwrap(), SyncProgress::Pending));
    assert_eq!(sync.wanted(), 8);
}

#[test]
fn short_remainder_is_a_short_read() {
    let mut sync = Synchronizer::new(None);
    sync.advance(&vec![0xAA]).unwrap();
    sync.advance(&vec![0xC0]).unwrap();
    let err = sync.advance(&vec![1, 2, 3]).unwrap_err();
    assert_eq!(err, ProtocolViolation::ShortRead);
}

#[test]
fn empty_direction_read_is_a_short_read() {
    let mut sync = Synchronizer::new(None);
    sync.advance(&vec![0xAA]).unwrap();
    let err = sync.advance(&vec![]).unwrap_err();
    assert_eq!(err, ProtocolViolation::ShortRead);
}

#[test]
fn timeout_discards_partial_start() {
    let mut sync = Synchronizer::new(None);
    sync.advance(&vec![0xAA]).unwrap();
    sync.on_timeout();
    assert_eq!(sync.wanted(), 1);
}

#[test]
fn measurement_frame_is_accepted() {
    let frame = measurement_frame();
    let mut info = SensorInfo::default();
    assert_eq!(validate_frame(None, &frame, &mut info), Ok(()));
    assert_eq!(info.device_id, Some([0xAB, 0xCD]));
}

#[test]
fn matching_response_is_accepted_as_the_reply() {
    let frame = duty_cycle_response();
    let mut info = SensorInfo::default();
    assert_eq!(validate_frame(Some(Command::DutyCycle), &frame, &mut info), Ok(()));
    assert_eq!(info.device_id, Some([0xA1, 0xB2]));
}

#[test]
fn response_direction_without_command_is_rejected() {
    let frame = duty_cycle_response();
    let mut info = SensorInfo::default();
    let r = validate_frame(None, &frame, &mut info);
    assert_eq!(r, Err(ProtocolViolation::UnexpectedDirection));
    assert_eq!(info.device_id, None);
}

#[test]
fn measurement_direction_against_command_is_rejected() {
    let frame = measurement_frame();
    let mut info = SensorInfo::default();
    let r = validate_frame(Some(Command::DutyCycle), &frame, &mut info);
    assert_eq!(r, Err(ProtocolViolation::UnexpectedDirection));
}

#[test]
fn wrong_opcode_echo_is_rejected() {
    // A firmware reply (opcode 7) cannot answer a duty-cycle command.
    // 7 + 1 + 2 + 3 + 0xA1 + 0xB2 = 352; 352 mod 256 = 96.
    let frame = vec![0xAA, 0xC5, 7, 1, 2, 3, 0xA1, 0xB2, 96, 0xAB];
    let mut info = SensorInfo::default();
    let r = validate_frame(Some(Command::DutyCycle), &frame, &mut info);
    assert_eq!(r, Err(ProtocolViolation::UnexpectedOpcode));
}

#[test]
fn corrupted_checksum_byte_is_rejected() {
    let mut frame = measurement_frame();
    frame[8] = frame[8].wrapping_add(1);
    let mut info = SensorInfo::default();
    let r = validate_frame(None, &frame, &mut info);
    assert_eq!(r, Err(ProtocolViolation::ChecksumMismatch));
    assert_eq!(info.device_id, None);
}

#[test]
fn repeated_device_id_is_accepted() {
    let frame = measurement_frame();
    let mut info = SensorInfo::default();
    assert_eq!(validate_frame(None, &frame, &mut info), Ok(()));
    assert_eq!(validate_frame(None, &frame, &mut info), Ok(()));
    assert_eq!(info.device_id, Some([0xAB, 0xCD]));
}

#[test]
fn different_device_id_is_rejected() {
    let frame = measurement_frame();
    let mut info = SensorInfo::default();
    assert_eq!(validate_frame(None, &frame, &mut info), Ok(()));
    // Same counts, other device: id 01:02. 20 + 50 + 1 + 2 = 73.
    let other = vec![0xAA, 0xC0, 0x14, 0x00, 0x32, 0x00, 0x01, 0x02, 73, 0xAB];
    let r = validate_frame(None, &other, &mut info);
    assert_eq!(r, Err(ProtocolViolation::DeviceIdMismatch));
    assert_eq!(info.device_id, Some([0xAB, 0xCD]));
}

#[test]
fn observe_device_id_pins_the_first_id() {
    let mut info = SensorInfo::default();
    assert_eq!(info.observe_device_id([1, 2]), Ok(()));
    assert_eq!(info.observe_device_id([1, 2]), Ok(()));
    assert_eq!(
        info.observe_device_id([3, 4]),
        Err(ProtocolViolation::DeviceIdMismatch)
    );
    assert_eq!(info.device_id, Some([1, 2]));
}

#[test]
fn decode_measurement_round_trip() {
    // pm2.5 raw 0x0014 = 20 -> 2.0 µg/m³; pm10 raw 0x0032 = 50 -> 5.0.
    let frame = measurement_frame();
    let m = decode_measurement(&frame, 123_456);
    assert_eq!(m.pm2_5_tenths, 20);
    assert_eq!(m.pm10_tenths, 50);
    assert_eq!(m.timestamp_millis, 123_456);
    assert_eq!(m.pm2_5_tenths as f32 / 10.0, 2.0);
    assert_eq!(m.pm10_tenths as f32 / 10.0, 5.0);
}

#[test]
fn decode_measurement_uses_little_endian_counts() {
    // pm2.5 raw 0x0102 = 258 -> 25.8; pm10 raw 0x2010 = 8208 -> 820.8.
    // 2 + 1 + 0x10 + 0x20 + 5 + 6 = 62.
    let frame = vec![0xAA, 0xC0, 0x02, 0x01, 0x10, 0x20, 5, 6, 62, 0xAB];
    let m = decode_measurement(&frame, 0);
    assert_eq!(m.pm2_5_tenths, 258);
    assert_eq!(m.pm10_tenths, 8208);
}

#[test]
fn get_measurement_stamps_a_time() {
    let frame = measurement_frame();
    let m = get_measurement(&frame);
    assert_eq!(m.pm2_5_tenths, 20);
    assert_eq!(m.pm10_tenths, 50);
    assert!(m.timestamp_millis >= 0);
}
