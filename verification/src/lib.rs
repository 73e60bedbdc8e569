//! Protocol codec for a keyboard's HID configuration channel.
//!
//! The device speaks a fixed-size request/response protocol: every request
//! and every response is a 64-byte HID report. This crate builds request
//! frames, validates response frames by prefix match, and decodes response
//! payloads into typed results (DIP switches, keyboard mode, identity
//! record, reassembled firmware image). The HID transport itself (device
//! discovery, write, read) is left to the caller.

pub mod decode;
pub mod discover;
pub mod dump;
pub mod frame;
pub mod keyboard;
pub mod render;
pub mod text;
