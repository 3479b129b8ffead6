//! What to write to the virtual `/dev/uinput` device for one incoming
//! `inputEvent`. Writing is the caller's job; this module decides the
//! sequence of device writes and keeps the virtual device's modifier state.
//!
//! Callers must already have passed the event through the safety gates
//! (trusted peer, receiver role, emergency stop off, holder of control):
//! nothing here checks them again.

use vstd::prelude::*;
use crate::input_event::{InputEventKind, InputEventMessage};
use crate::keymap::{button_to_linux, mac_to_linux, spec_button_to_linux, spec_mac_to_linux};
use crate::modifiers::ModifierState;
use crate::capture::{spec_translate, RawInputEvent, EV_KEY};
use crate::keymap::{lemma_button_map_inverse, lemma_keymap_inverse, spec_linux_to_button, spec_linux_to_mac};

verus! {

/// One write to the virtual device; the device reports each write as one
/// synchronized batch.
#[derive(Debug, Clone, Copy, PartialEq, Eq, Structural)]
pub enum DeviceWrite {
    /// `EV_KEY` `code` down (`pressed`) or up.
    Key { code: u16, pressed: bool },
    /// `REL_X` then `REL_Y` in one batch.
    Motion { dx: i32, dy: i32 },
    /// `REL_WHEEL` by `ticks`.
    Wheel { ticks: i32 },
}

/// Why an event could not be injected.
#[derive(Debug, Clone, Copy, PartialEq, Eq, Structural)]
pub enum InjectionError {
    /// The macOS key code has no Linux key in the key table.
    UnmappedKeyCode(u16),
}

/// The nearest `i32` to `v` (Rust's saturating float-to-int conversion,
/// which is how a wire number becomes a device delta).
pub open spec fn saturate_i32(v: int) -> i32 {
    if v < i32::MIN {
        i32::MIN
    } else if v > i32::MAX {
        i32::MAX
    } else {
        v as i32
    }
}

/// Integer division truncating toward zero, as a float division followed
/// by a conversion to integer truncates.
pub open spec fn div_toward_zero(v: int, d: int) -> int {
    if v >= 0 {
        v / d
    } else {
        -((-v) / d)
    }
}

/// Key writes for a list of (code, pressed) modifier events.
pub open spec fn key_writes(events: Seq<(u16, bool)>) -> Seq<DeviceWrite> {
    Seq::new(events.len(), |i: int| DeviceWrite::Key { code: events[i].0, pressed: events[i].1 })
}

/// The writes that follow the modifier sync for `event`, and the error if
/// the event cannot be injected.
pub open spec fn primary_writes(event: InputEventMessage) -> (Seq<DeviceWrite>, Option<
    InjectionError,
>) {
    match event.kind {
        InputEventKind::MouseMove => match (event.delta_x, event.delta_y) {
            (Some(dx), Some(dy)) => (
                seq![DeviceWrite::Motion { dx: saturate_i32(dx as int), dy: saturate_i32(dy as int) }],
                None,
            ),
            _ => (Seq::empty(), None),
        },
        InputEventKind::MouseDown | InputEventKind::MouseUp => match event.button {
            Some(b) => match spec_button_to_linux(b) {
                Some(code) => (
                    seq![DeviceWrite::Key { code, pressed: event.kind == InputEventKind::MouseDown }],
                    None,
                ),
                None => (Seq::empty(), None),
            },
            None => (Seq::empty(), None),
        },
        InputEventKind::Scroll => match event.delta_y {
            Some(dy) => (
                seq![DeviceWrite::Wheel { ticks: saturate_i32(div_toward_zero(dy as int, 10)) }],
                None,
            ),
            None => (Seq::empty(), None),
        },
        InputEventKind::KeyDown | InputEventKind::KeyUp => match event.key_code {
            Some(mac_code) => match spec_mac_to_linux(mac_code) {
                Some(code) => (
                    seq![DeviceWrite::Key { code, pressed: event.kind == InputEventKind::KeyDown }],
                    None,
                ),
                None => (Seq::empty(), Some(InjectionError::UnmappedKeyCode(mac_code))),
            },
            None => (Seq::empty(), None),
        },
        InputEventKind::MediaKey => (Seq::empty(), None),
    }
}

/// The modifier state after the primary writes: a key write is also a
/// modifier observation.
pub open spec fn after_primary(mods: ModifierState, writes: Seq<DeviceWrite>) -> ModifierState {
    if writes.len() == 1 {
        match writes[0] {
            DeviceWrite::Key { code, pressed } => mods.after_key(code, pressed),
            _ => mods,
        }
    } else {
        mods
    }
}

/// Plans the device writes for incoming events, tracking which modifier
/// keys the virtual device holds.
pub struct InjectionPlanner {
    modifiers: ModifierState,
}

impl InjectionPlanner {
    /// The modifier keys the virtual device holds.
    pub closed spec fn held(&self) -> ModifierState {
        self.modifiers
    }

    /// A planner for a fresh virtual device, nothing held.
    pub fn new() -> (planner: InjectionPlanner)
        ensures
            planner.held() == ModifierState::released(),
    {
        InjectionPlanner { modifiers: ModifierState::new() }
    }

    /// The writes that inject `event`: first the key events that bring
    /// the device's modifiers to the event's `modifierFlags`, then the
    /// event itself. A key event whose macOS code has no Linux key yields
    /// `Err`; the modifier writes before it still stand and are returned
    /// with it.
    pub fn plan(&mut self, event: &InputEventMessage) -> (result: (
        Vec<DeviceWrite>,
        Result<(), InjectionError>,
    ))
        ensures
            ({
                let mods = old(self).held();
                let sync = key_writes(mods.diff_events(event.modifier_flags));
                let synced = mods.diff_state(event.modifier_flags);
                let (primary, error) = primary_writes(*event);
                &&& result.0@ == sync + primary
                &&& final(self).held() == after_primary(synced, primary)
                &&& match error {
                    Some(e) => result.1 == Err::<(), InjectionError>(e),
                    None => result.1 is Ok,
                }
            }),
    {
        let ghost mods = self.modifiers;
        let events = self.modifiers.diff_to_reach(event.modifier_flags);
        let mut writes: Vec<DeviceWrite> = Vec::new();
        let mut i: usize = 0;
        while i < events.len()
            invariant
                0 <= i <= events.len(),
                events@ == mods.diff_events(event.modifier_flags),
                writes@ =~= key_writes(events@.subrange(0, i as int)),
            decreases events.len() - i,
        {
            let (code, pressed) = events[i];
            writes.push(DeviceWrite::Key { code, pressed });
            i = i + 1;
        }
        assert(events@.subrange(0, events@.len() as int) =~= events@);
        let ghost sync = writes@;

        match event.kind {
            InputEventKind::MouseMove => {
                if let (Some(dx), Some(dy)) = (event.delta_x, event.delta_y) {
                    writes.push(DeviceWrite::Motion { dx: saturating_i32(dx), dy: saturating_i32(dy) });
                }
            },
            InputEventKind::MouseDown | InputEventKind::MouseUp => {
                let pressed = matches!(event.kind, InputEventKind::MouseDown);
                if let Some(b) = event.button {
                    if let Some(code) = button_to_linux(b) {
                        self.modifiers.observe(code, pressed);
                        writes.push(DeviceWrite::Key { code, pressed });
                    }
                }
            },
            InputEventKind::Scroll => {
                if let Some(dy) = event.delta_y {
                    writes.push(DeviceWrite::Wheel { ticks: saturating_i32(dy / 10) });
                }
            },
            InputEventKind::KeyDown | InputEventKind::KeyUp => {
                let pressed = matches!(event.kind, InputEventKind::KeyDown);
                if let Some(mac_code) = event.key_code {
                    match mac_to_linux(mac_code) {
                        Some(code) => {
                            self.modifiers.observe(code, pressed);
                            writes.push(DeviceWrite::Key { code, pressed });
                        },
                        None => {
                            assert(writes@ =~= sync + primary_writes(*event).0);
                            return (writes, Err(InjectionError::UnmappedKeyCode(mac_code)));
                        },
                    }
                }
            },
            InputEventKind::MediaKey => {},
        }
        assert(writes@ =~= sync + primary_writes(*event).0);
        (writes, Ok(()))
    }
}

/// `v` clamped into the `i32` range.
pub fn saturating_i32(v: i64) -> (r: i32)
    ensures
        r == saturate_i32(v as int),
{
    if v < i32::MIN as i64 {
        i32::MIN
    } else if v > i32::MAX as i64 {
        i32::MAX
    } else {
        v as i32
    }
}

/// A key or mouse button captured on one machine is pressed or released
/// as the same Linux key on the machine that injects it: translating an
/// `EV_KEY` event that yields a message, then planning that message,
/// writes exactly that key with that state after the modifier sync.
pub proof fn lemma_captured_key_injects_same_key(mods: ModifierState, event: RawInputEvent)
    requires
        event.event_type == EV_KEY,
        spec_translate(mods, event).1 is Some,
    ensures
        primary_writes(spec_translate(mods, event).1->0) == (
            seq![DeviceWrite::Key { code: event.code, pressed: event.value != 0 }],
            None::<InjectionError>,
        ),
{
    match spec_linux_to_button(event.code) {
        Some(b) => {
            lemma_button_map_inverse(b, event.code);
        },
        None => {
            let m = spec_linux_to_mac(event.code)->0;
            lemma_keymap_inverse(m, event.code);
        },
    }
}

/// What the device is told for each kind of event, as relations:
/// - a key event writes the Linux key whose macOS code is the event's,
///   down exactly for `keyDown`; a macOS code with no Linux key writes
///   nothing and is refused with that code;
/// - a mouse button writes the Linux button the wire index maps to, down
///   exactly for `mouseDown`;
/// - a scroll of `dy` pixels (within the device's range) turns the wheel by
///   whole ten-pixel ticks, the remainder smaller than a tick and of the
///   same sign as `dy`;
/// - a move writes both deltas when both are present (within range,
///   unchanged), and nothing otherwise.
pub proof fn lemma_primary_writes(event: InputEventMessage)
    ensures
        (event.kind == InputEventKind::KeyDown || event.kind == InputEventKind::KeyUp)
            && event.key_code is Some ==> ({
            let c = event.key_code->0;
            let (w, err) = primary_writes(event);
            &&& spec_mac_to_linux(c) is None ==> w.len() == 0 && err == Some(
                InjectionError::UnmappedKeyCode(c),
            )
            &&& spec_mac_to_linux(c) is Some ==> err is None && w.len() == 1 && w[0] is Key
                && spec_linux_to_mac(w[0]->code) == Some(c) && w[0]->pressed == (event.kind
                == InputEventKind::KeyDown)
        }),
        (event.kind == InputEventKind::MouseDown || event.kind == InputEventKind::MouseUp)
            && event.button is Some && spec_button_to_linux(event.button->0) is Some ==> ({
            let (w, err) = primary_writes(event);
            &&& err is None
            &&& w.len() == 1
            &&& w[0] is Key
            &&& spec_linux_to_button(w[0]->code) == event.button
            &&& w[0]->pressed == (event.kind == InputEventKind::MouseDown)
        }),
        event.kind == InputEventKind::Scroll && event.delta_y is Some && -21474836470
            <= event.delta_y->0 <= 21474836470 ==> ({
            let dy = event.delta_y->0 as int;
            let (w, err) = primary_writes(event);
            &&& err is None
            &&& w.len() == 1
            &&& w[0] is Wheel
            &&& -10 < dy - 10 * w[0]->ticks < 10
            &&& (dy - 10 * w[0]->ticks > 0 ==> dy > 0)
            &&& (dy - 10 * w[0]->ticks < 0 ==> dy < 0)
        }),
        event.kind == InputEventKind::MouseMove ==> ({
            let (w, err) = primary_writes(event);
            &&& err is None
            &&& (event.delta_x is None || event.delta_y is None) ==> w.len() == 0
            &&& event.delta_x is Some && event.delta_y is Some && i32::MIN <= event.delta_x->0
                <= i32::MAX && i32::MIN <= event.delta_y->0 <= i32::MAX ==> w == seq![
                DeviceWrite::Motion { dx: event.delta_x->0 as i32, dy: event.delta_y->0 as i32 },
            ]
        }),
{
    if event.key_code is Some {
        let c = event.key_code->0;
        if spec_mac_to_linux(c) is Some {
            lemma_keymap_inverse(c, spec_mac_to_linux(c)->0);
        }
    }
    if event.button is Some {
        let b = event.button->0;
        if spec_button_to_linux(b) is Some {
            lemma_button_map_inverse(b, spec_button_to_linux(b)->0);
        }
    }
}

} // verus!
