//! Translation of captured evdev events into wire `inputEvent`s.
//!
//! Reading `/dev/input/event*` is the caller's job; this module takes each
//! raw event as its (type, code, value) triple and decides what, if
//! anything, goes on the wire. Modifier keys update the tracked modifier
//! state and are still forwarded as ordinary key events.

use vstd::prelude::*;
use crate::input_event::{InputEventKind, InputEventMessage};
use crate::keymap::{linux_to_button, linux_to_mac, spec_linux_to_button, spec_linux_to_mac};
use crate::modifiers::{has_flag, lemma_bitmask_bits, ModifierState};
use crate::input_event::{CAPS_LOCK, COMMAND_META, CONTROL, OPTION_ALT, SHIFT};

verus! {

/// evdev `EV_KEY`: keyboard keys and mouse buttons.
pub const EV_KEY: u16 = 1;

/// evdev `EV_REL`: relative motion and wheels.
pub const EV_REL: u16 = 2;

/// evdev `REL_X`.
pub const REL_X: u16 = 0;

/// evdev `REL_Y`.
pub const REL_Y: u16 = 1;

/// evdev `REL_WHEEL`.
pub const REL_WHEEL: u16 = 8;

/// Pixels of scroll per wheel tick.
pub const SCROLL_PIXELS_PER_TICK: i64 = 10;

/// One raw evdev event: its type, code and value.
#[derive(Debug, Clone, Copy, PartialEq, Eq, Structural)]
pub struct RawInputEvent {
    pub event_type: u16,
    pub code: u16,
    pub value: i32,
}

/// A message with every optional field absent.
pub open spec fn bare_message(kind: InputEventKind, flags: u64) -> InputEventMessage {
    InputEventMessage {
        kind,
        x: None,
        y: None,
        delta_x: None,
        delta_y: None,
        button: None,
        key_code: None,
        media_key: None,
        modifier_flags: flags,
        pressed: None,
        click_state: None,
    }
}

/// What one raw event becomes on the wire, given the modifier keys held
/// before it, and the modifier keys held after it.
///
/// - A mouse-button key event is a `mouseDown`/`mouseUp` with its wire
///   button index and a single click.
/// - Any other key event updates the modifiers, then becomes a
///   `keyDown`/`keyUp` with its macOS key code, or nothing if the key table
///   has no macOS code for it.
/// - `REL_X`/`REL_Y` become a `mouseMove` with that one delta;
///   `REL_WHEEL` becomes a vertical `scroll` of ten pixels per tick.
/// - Everything else is dropped.
pub open spec fn spec_translate(mods: ModifierState, event: RawInputEvent) -> (
    ModifierState,
    Option<InputEventMessage>,
) {
    let pressed = event.value != 0;
    if event.event_type == EV_KEY {
        if let Some(button) = spec_linux_to_button(event.code) {
            (
                mods,
                Some(
                    InputEventMessage {
                        button: Some(button),
                        pressed: Some(pressed),
                        click_state: Some(1u8),
                        ..bare_message(
                            if pressed {
                                InputEventKind::MouseDown
                            } else {
                                InputEventKind::MouseUp
                            },
                            mods.bitmask(),
                        )
                    },
                ),
            )
        } else {
            let next = mods.after_key(event.code, pressed);
            match spec_linux_to_mac(event.code) {
                None => (next, None),
                Some(mac_code) => (
                    next,
                    Some(
                        InputEventMessage {
                            key_code: Some(mac_code),
                            pressed: Some(pressed),
                            ..bare_message(
                                if pressed {
                                    InputEventKind::KeyDown
                                } else {
                                    InputEventKind::KeyUp
                                },
                                next.bitmask(),
                            )
                        },
                    ),
                ),
            }
        }
    } else if event.event_type == EV_REL {
        if event.code == REL_X {
            (
                mods,
                Some(
                    InputEventMessage {
                        delta_x: Some(event.value as i64),
                        ..bare_message(InputEventKind::MouseMove, mods.bitmask())
                    },
                ),
            )
        } else if event.code == REL_Y {
            (
                mods,
                Some(
                    InputEventMessage {
                        delta_y: Some(event.value as i64),
                        ..bare_message(InputEventKind::MouseMove, mods.bitmask())
                    },
                ),
            )
        } else if event.code == REL_WHEEL {
            (
                mods,
                Some(
                    InputEventMessage {
                        delta_y: Some((event.value * SCROLL_PIXELS_PER_TICK) as i64),
                        ..bare_message(InputEventKind::Scroll, mods.bitmask())
                    },
                ),
            )
        } else {
            (mods, None)
        }
    } else {
        (mods, None)
    }
}

/// Turns this device's captured input into wire events, keeping track of
/// which modifier keys are held.
pub struct InputCaptureService {
    modifiers: ModifierState,
}

impl InputCaptureService {
    /// The modifier keys this capture believes are held.
    pub closed spec fn held(&self) -> ModifierState {
        self.modifiers
    }

    /// A capture with no modifier held.
    pub fn new() -> (service: InputCaptureService)
        ensures
            service.held() == ModifierState::released(),
    {
        InputCaptureService { modifiers: ModifierState::new() }
    }

    /// Translate one raw evdev event into zero or one wire events (see
    /// `spec_translate`).
    pub fn translate(&mut self, event: RawInputEvent) -> (message: Option<InputEventMessage>)
        ensures
            (final(self).held(), message) == spec_translate(old(self).held(), event),
    {
        let pressed = event.value != 0;
        if event.event_type == EV_KEY {
            if let Some(button) = linux_to_button(event.code) {
                return Some(
                    InputEventMessage {
                        kind: if pressed {
                            InputEventKind::MouseDown
                        } else {
                            InputEventKind::MouseUp
                        },
                        x: None,
                        y: None,
                        delta_x: None,
                        delta_y: None,
                        button: Some(button),
                        key_code: None,
                        media_key: None,
                        modifier_flags: self.modifiers.to_bitmask(),
                        pressed: Some(pressed),
                        click_state: Some(1),
                    },
                );
            }
            self.modifiers.observe(event.code, pressed);
            let mac_code = match linux_to_mac(event.code) {
                Some(c) => c,
                None => return None,
            };
            Some(
                InputEventMessage {
                    kind: if pressed {
                        InputEventKind::KeyDown
                    } else {
                        InputEventKind::KeyUp
                    },
                    x: None,
                    y: None,
                    delta_x: None,
                    delta_y: None,
                    button: None,
                    key_code: Some(mac_code),
                    media_key: None,
                    modifier_flags: self.modifiers.to_bitmask(),
                    pressed: Some(pressed),
                    click_state: None,
                },
            )
        } else if event.event_type == EV_REL {
            let delta = event.value as i64;
            let (kind, delta_x, delta_y) = if event.code == REL_X {
                (InputEventKind::MouseMove, Some(delta), None)
            } else if event.code == REL_Y {
                (InputEventKind::MouseMove, None, Some(delta))
            } else if event.code == REL_WHEEL {
                (InputEventKind::Scroll, None, Some(delta * SCROLL_PIXELS_PER_TICK))
            } else {
                return None;
            };
            Some(
                InputEventMessage {
                    kind,
                    x: None,
                    y: None,
                    delta_x,
                    delta_y,
                    button: None,
                    key_code: None,
                    media_key: None,
                    modifier_flags: self.modifiers.to_bitmask(),
                    pressed: None,
                    click_state: None,
                },
            )
        } else {
            None
        }
    }
}

impl Default for InputCaptureService {
    /// No modifier held, as `new`.
    fn default() -> (service: Self)
        ensures
            service.held() == ModifierState::released(),
    {
        InputCaptureService::new()
    }
}
/// Every message the capture produces carries the modifier bitmask of the
/// keys held once the event is taken into account: a click or a motion
/// while Shift is held is a shift-click or a shift-move. Mouse buttons and
/// motion leave the held keys as they were; a key event updates exactly
/// its own key.
pub proof fn lemma_messages_carry_held_modifiers(mods: ModifierState, event: RawInputEvent)
    ensures
        spec_translate(mods, event).1 matches Some(m) ==> m.modifier_flags == spec_translate(
            mods,
            event,
        ).0.bitmask(),
        spec_translate(mods, event).1 matches Some(m) ==> has_flag(m.modifier_flags, SHIFT)
            == spec_translate(mods, event).0.shift_held() && has_flag(m.modifier_flags, CONTROL)
            == spec_translate(mods, event).0.control_held() && has_flag(m.modifier_flags, OPTION_ALT)
            == spec_translate(mods, event).0.alt_held() && has_flag(m.modifier_flags, COMMAND_META)
            == spec_translate(mods, event).0.meta_held() && has_flag(m.modifier_flags, CAPS_LOCK)
            == spec_translate(mods, event).0.caps_lock,
        event.event_type != EV_KEY ==> spec_translate(mods, event).0 == mods,
        event.event_type == EV_KEY && spec_linux_to_button(event.code) is Some ==> spec_translate(
            mods,
            event,
        ).0 == mods,
        event.event_type == EV_KEY && spec_linux_to_button(event.code) is None ==> spec_translate(
            mods,
            event,
        ).0 == mods.after_key(event.code, event.value != 0),
{
    lemma_bitmask_bits(spec_translate(mods, event).0);
}

/// A mouse button event becomes a press or release of that button, a
/// single click, with the held modifiers' bitmask.
pub proof fn lemma_button_message(mods: ModifierState, event: RawInputEvent)
    requires
        event.event_type == EV_KEY,
        spec_linux_to_button(event.code) is Some,
    ensures
        spec_translate(mods, event).1 matches Some(m) && m.button == spec_linux_to_button(event.code)
            && m.pressed == Some(event.value != 0) && m.modifier_flags == mods.bitmask()
            && m.click_state == Some(1u8) && m.key_code is None
            && (m.kind == (if event.value != 0 {
            InputEventKind::MouseDown
        } else {
            InputEventKind::MouseUp
        })),
{
}

} // verus!
