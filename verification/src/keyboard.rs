//! Typed views of the keyboard's configuration state.
//!
//! The protocol encodes the keyboard mode and the running firmware as
//! single bytes; a byte outside the known value set is a decode error,
//! never a silent default.

use vstd::prelude::*;

verus! {

/// The key layout mode the keyboard is configured for.
#[derive(Clone, Copy, Debug, PartialEq, Eq, Structural)]
pub enum KeyboardMode {
    Hhk,
    Mac,
    Light,
}

/// Which firmware the controller is currently running.
#[derive(Clone, Copy, Debug, PartialEq, Eq, Structural)]
pub enum RunningFirmware {
    AppFirmware,
    BootFirmware,
}

/// The decoded identity record of a keyboard unit.
///
/// The text fields come from fixed-width UTF-8 ranges of the response
/// with their NUL padding stripped; the version fields are rendered
/// from 4 raw bytes each.
#[derive(Debug)]
pub struct KeyboardInfo {
    /// The unit's type-number field.
    pub type_number: String,
    /// The unit's revision field.
    pub revision: String,
    /// The unit's serial field.
    pub serial: String,
    /// The application firmware version, rendered as text.
    pub app_firm_version: String,
    /// The bootloader firmware version, rendered as text.
    pub boot_firm_version: String,
    /// Which firmware the controller is running.
    pub running_firmware: RunningFirmware,
}

/// The byte that stands for a keyboard mode on the wire.
pub open spec fn mode_byte(m: KeyboardMode) -> u8 {
    match m {
        KeyboardMode::Hhk => 0,
        KeyboardMode::Mac => 1,
        KeyboardMode::Light => 2,
    }
}

/// The keyboard mode a wire byte stands for, if any.
pub open spec fn mode_of_byte(v: u8) -> Option<KeyboardMode> {
    if v == 0 {
        Some(KeyboardMode::Hhk)
    } else if v == 1 {
        Some(KeyboardMode::Mac)
    } else if v == 2 {
        Some(KeyboardMode::Light)
    } else {
        None
    }
}

/// The byte that stands for a running-firmware variant on the wire.
pub open spec fn firmware_byte(f: RunningFirmware) -> u8 {
    match f {
        RunningFirmware::AppFirmware => 0,
        RunningFirmware::BootFirmware => 1,
    }
}

/// The running-firmware variant a wire byte stands for, if any.
pub open spec fn firmware_of_byte(v: u8) -> Option<RunningFirmware> {
    if v == 0 {
        Some(RunningFirmware::AppFirmware)
    } else if v == 1 {
        Some(RunningFirmware::BootFirmware)
    } else {
        None
    }
}

impl KeyboardMode {
    /// Decode a wire byte into a mode; out-of-range bytes are an error.
    pub fn try_from(v: u8) -> (r: Result<KeyboardMode, ()>)
        ensures
            r is Ok <==> mode_of_byte(v) is Some,
            r is Ok ==> mode_of_byte(v) == Some(r->Ok_0),
    {
        match v {
            0 => Ok(KeyboardMode::Hhk),
            1 => Ok(KeyboardMode::Mac),
            2 => Ok(KeyboardMode::Light),
            _ => Err(()),
        }
    }

    /// Encode this mode as its wire byte.
    pub fn to_byte(self) -> (b: u8)
        ensures
            b == mode_byte(self),
    {
        match self {
            KeyboardMode::Hhk => 0,
            KeyboardMode::Mac => 1,
            KeyboardMode::Light => 2,
        }
    }
}

impl RunningFirmware {
    /// Decode a wire byte into a firmware variant; out-of-range bytes are an error.
    pub fn try_from(v: u8) -> (r: Result<RunningFirmware, ()>)
        ensures
            r is Ok <==> firmware_of_byte(v) is Some,
            r is Ok ==> firmware_of_byte(v) == Some(r->Ok_0),
    {
        match v {
            0 => Ok(RunningFirmware::AppFirmware),
            1 => Ok(RunningFirmware::BootFirmware),
            _ => Err(()),
        }
    }

    /// Encode this firmware variant as its wire byte.
    pub fn to_byte(self) -> (b: u8)
        ensures
            b == firmware_byte(self),
    {
        match self {
            RunningFirmware::AppFirmware => 0,
            RunningFirmware::BootFirmware => 1,
        }
    }
}

/// Encoding a keyboard mode to its wire byte and decoding that byte
/// returns the original mode, for every mode.
pub proof fn lemma_mode_round_trip(m: KeyboardMode)
    ensures
        mode_of_byte(mode_byte(m)) == Some(m),
{
}

} // verus!
