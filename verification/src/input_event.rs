//! The `inputEvent` payload: low-level key codes, mouse buttons, motion and
//! the macOS `CGEventFlags` modifier bitmask. It never carries Unicode text,
//! so nothing the user types can leak through a packet dump or a log.

use vstd::prelude::*;

verus! {

/// `CGEventFlags` bit for Caps Lock.
pub const CAPS_LOCK: u64 = 0x1_0000;

/// `CGEventFlags` bit for Shift (either side).
pub const SHIFT: u64 = 0x2_0000;

/// `CGEventFlags` bit for Control (either side).
pub const CONTROL: u64 = 0x4_0000;

/// `CGEventFlags` bit for Option / Alt (either side).
pub const OPTION_ALT: u64 = 0x8_0000;

/// `CGEventFlags` bit for Command / Meta (either side).
pub const COMMAND_META: u64 = 0x10_0000;

/// `CGEventFlags` bit for a numeric-keypad key.
pub const NUMERIC_PAD: u64 = 0x20_0000;

/// `CGEventFlags` bit for the Help key.
pub const HELP: u64 = 0x40_0000;

/// `CGEventFlags` bit for the Fn key.
pub const FUNCTION: u64 = 0x80_0000;

/// The `kind` of an input event.
#[derive(Debug, Clone, Copy, PartialEq, Eq, Structural)]
pub enum InputEventKind {
    MouseMove,
    MouseDown,
    MouseUp,
    Scroll,
    KeyDown,
    KeyUp,
    MediaKey,
}

/// The `mediaKey` values of the wire format.
#[derive(Debug, Clone, Copy, PartialEq, Eq, Structural)]
pub enum MediaKey {
    VolumeUp,
    VolumeDown,
    Mute,
    BrightnessUp,
    BrightnessDown,
    PlayPause,
    Next,
    Previous,
    FastForward,
    Rewind,
    Eject,
}

/// One input event. Fields that a `kind` does not use are `None` and are
/// left off the wire. Positions and deltas are whole screen points (the
/// wire carries them as JSON numbers); a scroll delta is in pixels, ten per
/// wheel tick.
#[derive(Debug, Clone, Copy, PartialEq, Eq, Structural)]
pub struct InputEventMessage {
    pub kind: InputEventKind,
    pub x: Option<i64>,
    pub y: Option<i64>,
    pub delta_x: Option<i64>,
    pub delta_y: Option<i64>,
    /// 0 = primary, 1 = secondary, 2 = middle.
    pub button: Option<u8>,
    /// macOS HIToolbox virtual key code.
    pub key_code: Option<u16>,
    pub media_key: Option<MediaKey>,
    pub modifier_flags: u64,
    pub pressed: Option<bool>,
    /// 1 = single, 2 = double, 3 = triple click.
    pub click_state: Option<u8>,
}

impl InputEventMessage {
    /// The click count, where a missing `clickState` (older peers omit it)
    /// counts as a single click.
    pub fn click_state_or_default(&self) -> (count: u8)
        ensures
            count == match self.click_state {
                Some(c) => c,
                None => 1u8,
            },
    {
        match self.click_state {
            Some(c) => c,
            None => 1,
        }
    }
}

} // verus!
