//! Scalar protocol operations: commands, expected prefixes, decoders.
//!
//! Each read operation sends one fixed command and expects the response
//! to begin with a fixed prefix. The decoders interpret a validated
//! 64-byte response frame; they never look past what the protocol
//! defines for the operation.

use vstd::prelude::*;
use vstd::slice::slice_subrange;
use vstd::slice::slice_to_vec;
use vstd::utf8::decode_utf8;
use vstd::utf8::valid_utf8;
use crate::keyboard::KeyboardInfo;
use crate::keyboard::KeyboardMode;
use crate::keyboard::RunningFirmware;
use crate::keyboard::firmware_of_byte;
use crate::keyboard::mode_of_byte;
use crate::render::render_version;
use crate::render::version_chars;
use crate::text::decode_field;
use crate::text::strip_nul_chars;

verus! {

/// Why an identity-record response failed to decode.
#[derive(Clone, Copy, Debug, PartialEq, Eq, Structural)]
pub enum DecodeError {
    /// A text field is not valid UTF-8.
    Utf8,
    /// The running-firmware byte is outside the known value set.
    Firmware,
}

/// The command that asks for the DIP switch state.
pub open spec fn dips_command_bytes() -> Seq<u8> {
    seq![0u8, 0xaa, 0xaa, 0x05]
}

/// The prefix a DIP switch response must begin with.
pub open spec fn dips_prefix_bytes() -> Seq<u8> {
    seq![85u8, 85, 5, 0, 0, 12]
}

/// The command that asks for the keyboard mode.
pub open spec fn mode_command_bytes() -> Seq<u8> {
    seq![0u8, 0xaa, 0xaa, 0x06]
}

/// The prefix a keyboard mode response must begin with.
pub open spec fn mode_prefix_bytes() -> Seq<u8> {
    seq![85u8, 85, 6, 0, 0, 1]
}

/// The command that asks for the identity record.
pub open spec fn info_command_bytes() -> Seq<u8> {
    seq![0u8, 0xaa, 0xaa, 0x02]
}

/// The prefix an identity record response must begin with.
pub open spec fn info_prefix_bytes() -> Seq<u8> {
    seq![85u8, 85, 2, 0, 0, 57]
}

/// The DIP switch command, ready to frame.
pub fn dips_command() -> (v: Vec<u8>)
    ensures
        v@ == dips_command_bytes(),
{
    let mut v: Vec<u8> = Vec::new();
    v.push(0);
    v.push(0xaa);
    v.push(0xaa);
    v.push(0x05);
    proof {
        assert(v@ =~= dips_command_bytes());
    }
    v
}

/// The DIP switch response prefix.
pub fn dips_prefix() -> (v: Vec<u8>)
    ensures
        v@ == dips_prefix_bytes(),
{
    let mut v: Vec<u8> = Vec::new();
    v.push(85);
    v.push(85);
    v.push(5);
    v.push(0);
    v.push(0);
    v.push(12);
    proof {
        assert(v@ =~= dips_prefix_bytes());
    }
    v
}

/// The keyboard mode command, ready to frame.
pub fn mode_command() -> (v: Vec<u8>)
    ensures
        v@ == mode_command_bytes(),
{
    let mut v: Vec<u8> = Vec::new();
    v.push(0);
    v.push(0xaa);
    v.push(0xaa);
    v.push(0x06);
    proof {
        assert(v@ =~= mode_command_bytes());
    }
    v
}

/// The keyboard mode response prefix.
pub fn mode_prefix() -> (v: Vec<u8>)
    ensures
        v@ == mode_prefix_bytes(),
{
    let mut v: Vec<u8> = Vec::new();
    v.push(85);
    v.push(85);
    v.push(6);
    v.push(0);
    v.push(0);
    v.push(1);
    proof {
        assert(v@ =~= mode_prefix_bytes());
    }
    v
}

/// The identity record command, ready to frame.
pub fn info_command() -> (v: Vec<u8>)
    ensures
        v@ == info_command_bytes(),
{
    let mut v: Vec<u8> = Vec::new();
    v.push(0);
    v.push(0xaa);
    v.push(0xaa);
    v.push(0x02);
    proof {
        assert(v@ =~= info_command_bytes());
    }
    v
}

/// The identity record response prefix.
pub fn info_prefix() -> (v: Vec<u8>)
    ensures
        v@ == info_prefix_bytes(),
{
    let mut v: Vec<u8> = Vec::new();
    v.push(85);
    v.push(85);
    v.push(2);
    v.push(0);
    v.push(0);
    v.push(57);
    proof {
        assert(v@ =~= info_prefix_bytes());
    }
    v
}

/// The switch states a DIP response frame carries at offsets 6..12:
/// byte value 1 means the switch is on.
pub open spec fn dips_of(frame: Seq<u8>) -> Seq<bool> {
    Seq::new(6, |i: int| frame[6 + i] == 1)
}

/// Decode the six DIP switches from a validated response frame.
pub fn decode_dips(frame: &Vec<u8>) -> (r: Vec<bool>)
    requires
        frame@.len() == 64,
    ensures
        r@ == dips_of(frame@),
{
    let mut r: Vec<bool> = Vec::new();
    let mut i: usize = 0;
    while i < 6
        invariant
            i <= 6,
            frame@.len() == 64,
            r@.len() == i,
            forall|j: int| 0 <= j < i ==> r@[j] == (frame@[6 + j] == 1),
        decreases 6 - i,
    {
        r.push(frame[6 + i] == 1);
        i = i + 1;
    }
    proof {
        assert(r@ =~= dips_of(frame@));
    }
    r
}

/// Decode the keyboard mode from byte 6 of a validated response frame;
/// an out-of-range byte is a decode error.
pub fn decode_mode(frame: &Vec<u8>) -> (r: Result<KeyboardMode, ()>)
    requires
        frame@.len() == 64,
    ensures
        r is Ok <==> mode_of_byte(frame@[6]) is Some,
        r is Ok ==> mode_of_byte(frame@[6]) == Some(r->Ok_0),
{
    KeyboardMode::try_from(frame[6])
}

/// True when the three text fields of an identity response are valid UTF-8.
pub open spec fn info_fields_utf8(frame: Seq<u8>) -> bool {
    &&& valid_utf8(frame.subrange(6, 26))
    &&& valid_utf8(frame.subrange(26, 30))
    &&& valid_utf8(frame.subrange(30, 46))
}

/// True when an identity response decodes without error.
pub open spec fn info_ok(frame: Seq<u8>) -> bool {
    info_fields_utf8(frame) && firmware_of_byte(frame[62]) is Some
}

/// Decode the identity record from a validated response frame:
/// type-number at 6..26, revision at 26..30, serial at 30..46 (UTF-8,
/// NUL padding stripped), version fields at 46..50 and 54..58, and the
/// running firmware at byte 62. Bytes 50..54 and 58..62 are reserved
/// and ignored.
pub fn decode_info(frame: &Vec<u8>) -> (r: Result<KeyboardInfo, DecodeError>)
    requires
        frame@.len() == 64,
    ensures
        r is Ok <==> info_ok(frame@),
        r is Ok ==> {
            let info = r->Ok_0;
            &&& info.type_number@ == strip_nul_chars(decode_utf8(frame@.subrange(6, 26)))
            &&& info.revision@ == strip_nul_chars(decode_utf8(frame@.subrange(26, 30)))
            &&& info.serial@ == strip_nul_chars(decode_utf8(frame@.subrange(30, 46)))
            &&& info.app_firm_version@ == version_chars(frame@.subrange(46, 50))
            &&& info.boot_firm_version@ == version_chars(frame@.subrange(54, 58))
            &&& firmware_of_byte(frame@[62]) == Some(info.running_firmware)
        },
        r is Err ==> (r->Err_0 == DecodeError::Utf8 <==> !info_fields_utf8(frame@)),
        r is Err ==> (r->Err_0 == DecodeError::Firmware <==> info_fields_utf8(frame@)
            && firmware_of_byte(frame@[62]) is None),
{
    let type_number = match decode_field(slice_to_vec(slice_subrange(frame.as_slice(), 6, 26))) {
        Some(s) => s,
        None => {
            return Err(DecodeError::Utf8);
        },
    };
    let revision = match decode_field(slice_to_vec(slice_subrange(frame.as_slice(), 26, 30))) {
        Some(s) => s,
        None => {
            return Err(DecodeError::Utf8);
        },
    };
    let serial = match decode_field(slice_to_vec(slice_subrange(frame.as_slice(), 30, 46))) {
        Some(s) => s,
        None => {
            return Err(DecodeError::Utf8);
        },
    };
    let app_firm_version = render_version(slice_subrange(frame.as_slice(), 46, 50));
    let boot_firm_version = render_version(slice_subrange(frame.as_slice(), 54, 58));
    let running_firmware = match RunningFirmware::try_from(frame[62]) {
        Ok(f) => f,
        Err(_) => {
            return Err(DecodeError::Firmware);
        },
    };
    Ok(
        KeyboardInfo {
            type_number,
            revision,
            serial,
            app_firm_version,
            boot_firm_version,
            running_firmware,
        },
    )
}

} // verus!
