use sds011::codec::{COMMAND_LENGTH, generate_checksum};
use sds011::commands::{Command, CommandMode, SendData, WorkState};

#[test]
fn it_works() {
    assert_eq!(2 + 2, 4);
}

#[test]
fn checksum_of_response_window() {
    // 0x14 + 0x32 + 0xAB + 0xCD = 446; 446 mod 256 = 190; 190 mod 255 = 190.
    let window = vec![0xAA, 0xC0, 0x14, 0x00, 0x32, 0x00, 0xAB, 0xCD];
    assert_eq!(generate_checksum(&window), Some(190));
}

#[test]
fn checksum_of_command_window() {
    // 8 + 1 + 5 + 255 + 255 = 524; 524 mod 256 = 12; 12 mod 255 = 12.
    let window = vec![
        0xAA, 0xB4, 8, 1, 5, 0, 0, 0, 0, 0, 0, 0, 0, 0, 0, 0xFF, 0xFF,
    ];
    assert_eq!(generate_checksum(&window), Some(12));
}

#[test]
fn checksum_is_deterministic() {
    let window = vec![0xAA, 0xC5, 8, 0, 2, 0, 0x01, 0x02];
    assert_eq!(generate_checksum(&window), generate_checksum(&window));
}

#[test]
fn checksum_rejects_wrong_length() {
    assert_eq!(generate_checksum(&vec![0xAA, 0xC0, 1, 2, 3, 4, 5]), None);
    assert_eq!(generate_checksum(&vec![]), None);
    let eleven = vec![0xAA, 0xC0, 0, 0, 0, 0, 0, 0, 0, 0, 0];
    assert_eq!(generate_checksum(&eleven), None);
}

#[test]
fn checksum_rejects_missing_start_byte() {
    let window = vec![0xAB, 0xC0, 0x14, 0x00, 0x32, 0x00, 0xAB, 0xCD];
    assert_eq!(generate_checksum(&window), None);
}

#[test]
fn checksum_rejects_bad_direction_marker() {
    let window = vec![0xAA, 0x00, 0x14, 0x00, 0x32, 0x00, 0xAB, 0xCD];
    assert_eq!(generate_checksum(&window), None);
}

#[test]
fn checksum_rejects_bad_opcode_on_non_measurement() {
    // Direction 0xC5 (response) with third byte 9, which is no opcode.
    let window = vec![0xAA, 0xC5, 9, 0, 0, 0, 0xAB, 0xCD];
    assert_eq!(generate_checksum(&window), None);
}

#[test]
fn checksum_changes_when_one_byte_changes() {
    let window = vec![0xAA, 0xC0, 0x14, 0x00, 0x32, 0x00, 0xAB, 0xCD];
    let baseline = generate_checksum(&window).unwrap();
    // Corrupt each summed byte in turn (keeping the frame shape legal).
    for i in 2..8 {
        let mut corrupted = window.clone();
        corrupted[i] = corrupted[i].wrapping_add(1);
        let changed = generate_checksum(&corrupted).unwrap();
        assert_ne!(baseline, changed, "corruption at index {} went unnoticed", i);
    }
}

#[test]
fn encode_command_is_19_bytes() {
    assert_eq!(SendData::get_duty_cycle().to_command_data().len(), COMMAND_LENGTH);
    assert_eq!(SendData::get_report_mode().to_command_data().len(), COMMAND_LENGTH);
    assert_eq!(SendData::get_firmware().to_command_data().len(), COMMAND_LENGTH);
    assert_eq!(SendData::set_duty_cycle(255).to_command_data().len(), COMMAND_LENGTH);
    assert_eq!(
        SendData::set_work_state(WorkState::Sleeping).to_command_data().len(),
        COMMAND_LENGTH
    );
    assert_eq!(
        SendData::new(Command::Request, CommandMode::Getting, 0).to_command_data().len(),
        COMMAND_LENGTH
    );
    assert_eq!(
        SendData::new(Command::DeviceId, CommandMode::Setting, 7).to_command_data().len(),
        COMMAND_LENGTH
    );
}

#[test]
fn encode_set_duty_cycle_exact_bytes() {
    let frame = SendData::set_duty_cycle(5).to_command_data();
    let expected = vec![
        0xAA, 0xB4, 8, 1, 5, 0, 0, 0, 0, 0, 0, 0, 0, 0, 0, 0xFF, 0xFF, 12, 0xAB,
    ];
    assert_eq!(frame, expected);
}

#[test]
fn encode_get_firmware_exact_bytes() {
    // 7 + 0xFF + 0xFF = 517; 517 mod 256 = 5; 5 mod 255 = 5.
    let frame = SendData::get_firmware().to_command_data();
    let expected = vec![
        0xAA, 0xB4, 7, 0, 0, 0, 0, 0, 0, 0, 0, 0, 0, 0, 0, 0xFF, 0xFF, 5, 0xAB,
    ];
    assert_eq!(frame, expected);
}

#[test]
fn encode_frame_checksums_itself() {
    // The checksum byte of an encoded frame is the checksum of the 17
    // bytes before it.
    let frame = SendData::set_work_state(WorkState::Measuring).to_command_data();
    let window = frame[0..17].to_vec();
    assert_eq!(generate_checksum(&window), Some(frame[17]));
    assert_eq!(frame[18], 0xAB);
}

#[test]
fn send_data_new_keeps_its_fields() {
    let sd = SendData::new(Command::WorkState, CommandMode::Setting, 1);
    assert_eq!(sd.command, Command::WorkState);
    assert_eq!(sd.mode, CommandMode::Setting);
    assert_eq!(sd.data, vec![1]);
}
