use hhkbfit::decode::decode_info;
use hhkbfit::decode::DecodeError;
use hhkbfit::keyboard::RunningFirmware;
use hhkbfit::render::render_version;
use hhkbfit::text::decode_field;

fn info_frame() -> Vec<u8> {
    let mut frame = vec![0u8; 64];
    frame[..6].copy_from_slice(&[85, 85, 2, 0, 0, 57]);
    frame
}

#[test]
fn type_number_is_text_with_nul_padding_stripped() {
    let mut frame = info_frame();
    frame[6..9].copy_from_slice(b"ABC");
    let info = decode_info(&frame).unwrap();
    assert_eq!(info.type_number, "ABC");
    assert!(!info.type_number.contains('\0'));
}

#[test]
fn version_field_renders_hex_then_decimal() {
    assert_eq!(render_version(&[0x1A, 5, 0, 3]), "1A5.03");
}

#[test]
fn version_field_rendering_widths() {
    assert_eq!(render_version(&[0x05, 1, 2, 3]), "51.23");
    assert_eq!(render_version(&[0xFF, 255, 0, 10]), "FF255.010");
    assert_eq!(render_version(&[0x10, 100, 99, 9]), "10100.999");
    assert_eq!(render_version(&[0x00, 0, 0, 0]), "00.00");
}

#[test]
fn full_identity_record_decodes_field_by_field() {
    let mut frame = info_frame();
    frame[6..13].copy_from_slice(b"PD-KB01");
    frame[26..28].copy_from_slice(b"A1");
    frame[30..35].copy_from_slice(b"12345");
    frame[46..50].copy_from_slice(&[0x2B, 10, 20, 30]);
    frame[54..58].copy_from_slice(&[0x01, 2, 3, 4]);
    frame[62] = 1;
    let info = decode_info(&frame).unwrap();
    assert_eq!(info.type_number, "PD-KB01");
    assert_eq!(info.revision, "A1");
    assert_eq!(info.serial, "12345");
    assert_eq!(info.app_firm_version, "2B10.2030");
    assert_eq!(info.boot_firm_version, "12.34");
    assert_eq!(info.running_firmware, RunningFirmware::BootFirmware);
}

#[test]
fn reserved_version_padding_bytes_are_ignored() {
    let mut frame = info_frame();
    frame[50..54].copy_from_slice(&[9, 9, 9, 9]);
    frame[58..62].copy_from_slice(&[7, 7, 7, 7]);
    let info = decode_info(&frame).unwrap();
    assert_eq!(info.app_firm_version, "00.00");
    assert_eq!(info.boot_firm_version, "00.00");
}

#[test]
fn malformed_utf8_in_a_text_field_is_a_utf8_error() {
    let mut frame = info_frame();
    frame[6] = 0xFF;
    assert_eq!(decode_info(&frame).unwrap_err(), DecodeError::Utf8);
    let mut frame = info_frame();
    frame[30] = 0xC3;
    frame[31] = 0x28;
    assert_eq!(decode_info(&frame).unwrap_err(), DecodeError::Utf8);
}

#[test]
fn out_of_range_firmware_byte_is_a_firmware_error() {
    let mut frame = info_frame();
    frame[62] = 5;
    assert_eq!(decode_info(&frame).unwrap_err(), DecodeError::Firmware);
}

#[test]
fn utf8_error_takes_precedence_over_firmware_error() {
    let mut frame = info_frame();
    frame[6] = 0xFF;
    frame[62] = 5;
    assert_eq!(decode_info(&frame).unwrap_err(), DecodeError::Utf8);
}

#[test]
fn decode_field_strips_embedded_nul_characters() {
    let bytes = vec![b'A', 0, b'B', 0, 0, b'C'];
    assert_eq!(decode_field(bytes).unwrap(), "ABC");
}

#[test]
fn decode_field_keeps_multibyte_utf8() {
    let bytes = vec![0xC3, 0xA9, 0, 0];
    assert_eq!(decode_field(bytes).unwrap(), "\u{e9}");
}

#[test]
fn decode_field_rejects_invalid_utf8() {
    assert_eq!(decode_field(vec![0xFF, 0xFE]), None);
    assert_eq!(decode_field(vec![0xC3]), None);
}
