use hhkbfit::decode::decode_dips;
use hhkbfit::decode::decode_mode;
use hhkbfit::decode::dips_command;
use hhkbfit::decode::dips_prefix;
use hhkbfit::decode::info_command;
use hhkbfit::decode::info_prefix;
use hhkbfit::decode::mode_command;
use hhkbfit::decode::mode_prefix;
use hhkbfit::discover::select_product;
use hhkbfit::discover::VENDOR_ID;
use hhkbfit::frame::build_frame;
use hhkbfit::frame::verify;
use hhkbfit::keyboard::KeyboardMode;
use hhkbfit::keyboard::RunningFirmware;

#[test]
fn build_frame_is_64_bytes_with_command_prefix_and_zero_padding() {
    let cmd = vec![0u8, 0xAA, 0xAA, 0x05];
    let frame = build_frame(&cmd);
    assert_eq!(frame.len(), 64);
    assert_eq!(&frame[..4], &cmd[..]);
    for i in 4..64 {
        assert_eq!(frame[i], 0);
    }
}

#[test]
fn build_frame_empty_command_is_all_zeros() {
    let frame = build_frame(&Vec::new());
    assert_eq!(frame.len(), 64);
    assert!(frame.iter().all(|&b| b == 0));
}

#[test]
fn build_frame_full_length_command_is_kept_whole() {
    let cmd: Vec<u8> = (0..64).map(|i| i as u8).collect();
    let frame = build_frame(&cmd);
    assert_eq!(frame, cmd);
}

#[test]
fn verify_empty_prefix_always_matches() {
    let response = vec![1u8, 2, 3];
    assert!(verify(&response, &Vec::new()));
    assert!(verify(&Vec::new(), &Vec::new()));
}

#[test]
fn verify_matching_prefix_accepts() {
    let response = vec![85u8, 85, 5, 0, 0, 12, 7, 7];
    let prefix = vec![85u8, 85, 5, 0, 0, 12];
    assert!(verify(&response, &prefix));
}

#[test]
fn verify_mismatch_at_any_compared_index_rejects() {
    let response = vec![85u8, 85, 5, 0, 0, 12];
    assert!(!verify(&response, &vec![86u8, 85, 5]));
    assert!(!verify(&response, &vec![85u8, 85, 5, 0, 0, 13]));
}

#[test]
fn verify_compares_only_up_to_shorter_length() {
    let response = vec![85u8, 85];
    let prefix = vec![85u8, 85, 5, 0, 0, 12];
    assert!(verify(&response, &prefix));
}

#[test]
fn mode_round_trip_for_all_variants() {
    for mode in [KeyboardMode::Hhk, KeyboardMode::Mac, KeyboardMode::Light] {
        assert_eq!(KeyboardMode::try_from(mode.to_byte()), Ok(mode));
    }
}

#[test]
fn mode_byte_three_fails_to_decode() {
    assert_eq!(KeyboardMode::try_from(3), Err(()));
    assert_eq!(KeyboardMode::try_from(255), Err(()));
}

#[test]
fn mode_bytes_are_protocol_values() {
    assert_eq!(KeyboardMode::Hhk.to_byte(), 0);
    assert_eq!(KeyboardMode::Mac.to_byte(), 1);
    assert_eq!(KeyboardMode::Light.to_byte(), 2);
}

#[test]
fn running_firmware_round_trip_and_out_of_range() {
    for fw in [RunningFirmware::AppFirmware, RunningFirmware::BootFirmware] {
        assert_eq!(RunningFirmware::try_from(fw.to_byte()), Ok(fw));
    }
    assert_eq!(RunningFirmware::try_from(2), Err(()));
}

#[test]
fn decode_dips_reads_six_switches_at_offset_six() {
    let mut frame = vec![0u8; 64];
    let pattern = [1u8, 0, 1, 0, 1, 0];
    frame[6..12].copy_from_slice(&pattern);
    let dips = decode_dips(&frame);
    assert_eq!(dips, vec![true, false, true, false, true, false]);
}

#[test]
fn decode_dips_only_byte_value_one_means_on() {
    let mut frame = vec![0u8; 64];
    frame[6] = 2;
    frame[7] = 1;
    frame[8] = 255;
    let dips = decode_dips(&frame);
    assert_eq!(dips, vec![false, true, false, false, false, false]);
}

#[test]
fn decode_mode_reads_byte_six() {
    let mut frame = vec![0u8; 64];
    frame[6] = 1;
    assert_eq!(decode_mode(&frame), Ok(KeyboardMode::Mac));
    frame[6] = 9;
    assert_eq!(decode_mode(&frame), Err(()));
}

#[test]
fn scalar_commands_and_prefixes_are_protocol_bytes() {
    assert_eq!(dips_command(), vec![0x00, 0xAA, 0xAA, 0x05]);
    assert_eq!(dips_prefix(), vec![85, 85, 5, 0, 0, 12]);
    assert_eq!(mode_command(), vec![0x00, 0xAA, 0xAA, 0x06]);
    assert_eq!(mode_prefix(), vec![85, 85, 6, 0, 0, 1]);
    assert_eq!(info_command(), vec![0x00, 0xAA, 0xAA, 0x02]);
    assert_eq!(info_prefix(), vec![85, 85, 2, 0, 0, 57]);
}

#[test]
fn vendor_id_is_04fe() {
    assert_eq!(VENDOR_ID, 0x04FE);
}

#[test]
fn select_product_requires_one_unanimous_candidate() {
    assert_eq!(select_product(&Vec::new()), None);
    assert_eq!(select_product(&vec![0x0021]), Some(0x0021));
    assert_eq!(select_product(&vec![0x0021, 0x0021, 0x0021]), Some(0x0021));
    assert_eq!(select_product(&vec![0x0021, 0x0022]), None);
}
