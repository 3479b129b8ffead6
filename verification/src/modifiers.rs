//! The wire's modifier bitmask (macOS `CGEventFlags`) against evdev's
//! individual modifier keys. evdev has no bitmask, only discrete key
//! events, so each side tracks which modifier keys it believes are down:
//! capture to compute the outgoing bitmask, injection to know which
//! synthetic key events bring the virtual device to an incoming bitmask.

use vstd::prelude::*;
use crate::input_event::{CAPS_LOCK, COMMAND_META, CONTROL, OPTION_ALT, SHIFT};

verus! {

/// `KEY_CAPSLOCK`
pub const KEY_CAPSLOCK: u16 = 58;

/// `KEY_LEFTSHIFT`
pub const KEY_LEFTSHIFT: u16 = 42;

/// `KEY_RIGHTSHIFT`
pub const KEY_RIGHTSHIFT: u16 = 54;

/// `KEY_LEFTCTRL`
pub const KEY_LEFTCTRL: u16 = 29;

/// `KEY_RIGHTCTRL`
pub const KEY_RIGHTCTRL: u16 = 97;

/// `KEY_LEFTALT`
pub const KEY_LEFTALT: u16 = 56;

/// `KEY_RIGHTALT`
pub const KEY_RIGHTALT: u16 = 100;

/// `KEY_LEFTMETA`
pub const KEY_LEFTMETA: u16 = 125;

/// `KEY_RIGHTMETA`
pub const KEY_RIGHTMETA: u16 = 126;

/// The evdev modifier keys this side believes are held down.
#[derive(Debug, Clone, Copy, PartialEq, Eq, Structural)]
pub struct ModifierState {
    pub caps_lock: bool,
    pub left_shift: bool,
    pub right_shift: bool,
    pub left_control: bool,
    pub right_control: bool,
    pub left_alt: bool,
    pub right_alt: bool,
    pub left_meta: bool,
    pub right_meta: bool,
}

/// Whether `mask` has the bit `flag` set.
pub open spec fn has_flag(mask: u64, flag: u64) -> bool {
    mask & flag != 0
}

/// Whether a Linux key code is one of the nine tracked modifier keys.
pub open spec fn is_tracked_modifier(code: u16) -> bool {
    code == KEY_CAPSLOCK || code == KEY_LEFTSHIFT || code == KEY_RIGHTSHIFT || code
        == KEY_LEFTCTRL || code == KEY_RIGHTCTRL || code == KEY_LEFTALT || code == KEY_RIGHTALT
        || code == KEY_LEFTMETA || code == KEY_RIGHTMETA
}

/// The four modifier-group bits of the wire bitmask (not caps lock).
pub open spec fn group_bits() -> u64 {
    SHIFT | CONTROL | OPTION_ALT | COMMAND_META
}

/// The synthetic key events of one modifier group: when the target wants
/// the group down and neither of its keys is held, press the left-hand
/// key; when the target wants it up, release each of its keys that is
/// held, left-hand first. Otherwise nothing.
pub open spec fn group_events(want: bool, left: bool, right: bool, left_code: u16, right_code: u16) -> Seq<
    (u16, bool),
> {
    if want {
        if !left && !right {
            seq![(left_code, true)]
        } else {
            Seq::empty()
        }
    } else {
        (if left {
            seq![(left_code, false)]
        } else {
            Seq::empty()
        }) + (if right {
            seq![(right_code, false)]
        } else {
            Seq::empty()
        })
    }
}

/// The modifier-group bit that a key belongs to (0 for caps lock and
/// any other key).
pub open spec fn group_flag(code: u16) -> u64 {
    if code == KEY_LEFTSHIFT || code == KEY_RIGHTSHIFT {
        SHIFT
    } else if code == KEY_LEFTCTRL || code == KEY_RIGHTCTRL {
        CONTROL
    } else if code == KEY_LEFTALT || code == KEY_RIGHTALT {
        OPTION_ALT
    } else if code == KEY_LEFTMETA || code == KEY_RIGHTMETA {
        COMMAND_META
    } else {
        0
    }
}

/// Whether a key is the left-hand key of a modifier group.
pub open spec fn is_left_key(code: u16) -> bool {
    code == KEY_LEFTSHIFT || code == KEY_LEFTCTRL || code == KEY_LEFTALT || code == KEY_LEFTMETA
}

impl ModifierState {
    /// Nothing held.
    pub open spec fn released() -> ModifierState {
        ModifierState {
            caps_lock: false,
            left_shift: false,
            right_shift: false,
            left_control: false,
            right_control: false,
            left_alt: false,
            right_alt: false,
            left_meta: false,
            right_meta: false,
        }
    }

    /// The state after key `code` went down (`pressed`) or up. Keys other
    /// than the nine tracked modifiers leave the state as it is.
    pub open spec fn after_key(self, code: u16, pressed: bool) -> ModifierState {
        if code == KEY_CAPSLOCK {
            ModifierState { caps_lock: pressed, ..self }
        } else if code == KEY_LEFTSHIFT {
            ModifierState { left_shift: pressed, ..self }
        } else if code == KEY_RIGHTSHIFT {
            ModifierState { right_shift: pressed, ..self }
        } else if code == KEY_LEFTCTRL {
            ModifierState { left_control: pressed, ..self }
        } else if code == KEY_RIGHTCTRL {
            ModifierState { right_control: pressed, ..self }
        } else if code == KEY_LEFTALT {
            ModifierState { left_alt: pressed, ..self }
        } else if code == KEY_RIGHTALT {
            ModifierState { right_alt: pressed, ..self }
        } else if code == KEY_LEFTMETA {
            ModifierState { left_meta: pressed, ..self }
        } else if code == KEY_RIGHTMETA {
            ModifierState { right_meta: pressed, ..self }
        } else {
            self
        }
    }

    /// The state after a sequence of key events, in order.
    pub open spec fn after_keys(self, events: Seq<(u16, bool)>) -> ModifierState
        decreases events.len(),
    {
        if events.len() == 0 {
            self
        } else {
            self.after_key(events[0].0, events[0].1).after_keys(events.drop_first())
        }
    }

    pub open spec fn shift_held(self) -> bool {
        self.left_shift || self.right_shift
    }

    pub open spec fn control_held(self) -> bool {
        self.left_control || self.right_control
    }

    pub open spec fn alt_held(self) -> bool {
        self.left_alt || self.right_alt
    }

    pub open spec fn meta_held(self) -> bool {
        self.left_meta || self.right_meta
    }

    /// The wire bitmask of this state: one `CGEventFlags` bit per modifier
    /// group that has either of its keys down (the bits are distinct, so the
    /// sum is their union).
    pub open spec fn bitmask(self) -> u64 {
        ((if self.caps_lock { CAPS_LOCK } else { 0 }) + (if self.shift_held() { SHIFT } else { 0 })
            + (if self.control_held() { CONTROL } else { 0 }) + (if self.alt_held() { OPTION_ALT } else { 0 })
            + (if self.meta_held() { COMMAND_META } else { 0 })) as u64
    }

    /// Whether the group of `flag` has a key down.
    pub open spec fn group_held(self, flag: u64) -> bool {
        if flag == SHIFT {
            self.shift_held()
        } else if flag == CONTROL {
            self.control_held()
        } else if flag == OPTION_ALT {
            self.alt_held()
        } else if flag == COMMAND_META {
            self.meta_held()
        } else {
            false
        }
    }

    /// Whether the tracked key `code` is down.
    pub open spec fn key_held(self, code: u16) -> bool {
        if code == KEY_CAPSLOCK {
            self.caps_lock
        } else if code == KEY_LEFTSHIFT {
            self.left_shift
        } else if code == KEY_RIGHTSHIFT {
            self.right_shift
        } else if code == KEY_LEFTCTRL {
            self.left_control
        } else if code == KEY_RIGHTCTRL {
            self.right_control
        } else if code == KEY_LEFTALT {
            self.left_alt
        } else if code == KEY_RIGHTALT {
            self.right_alt
        } else if code == KEY_LEFTMETA {
            self.left_meta
        } else if code == KEY_RIGHTMETA {
            self.right_meta
        } else {
            false
        }
    }

    /// The synthetic key events that bring shift, control, alt and meta in
    /// line with `target`, in that order (see `group_events`).
    pub open spec fn diff_events(self, target: u64) -> Seq<(u16, bool)> {
        group_events(has_flag(target, SHIFT), self.left_shift, self.right_shift, KEY_LEFTSHIFT, KEY_RIGHTSHIFT)
            + group_events(has_flag(target, CONTROL), self.left_control, self.right_control, KEY_LEFTCTRL, KEY_RIGHTCTRL)
            + group_events(has_flag(target, OPTION_ALT), self.left_alt, self.right_alt, KEY_LEFTALT, KEY_RIGHTALT)
            + group_events(has_flag(target, COMMAND_META), self.left_meta, self.right_meta, KEY_LEFTMETA, KEY_RIGHTMETA)
    }

    /// The state once those synthetic events are recorded: a group the
    /// target wants down has its left-hand key pressed if neither key was
    /// held; a group the target wants up has both keys released; caps lock
    /// is untouched.
    pub open spec fn diff_state(self, target: u64) -> ModifierState {
        ModifierState {
            left_shift: has_flag(target, SHIFT) && (self.left_shift || !self.right_shift),
            right_shift: has_flag(target, SHIFT) && self.right_shift,
            left_control: has_flag(target, CONTROL) && (self.left_control || !self.right_control),
            right_control: has_flag(target, CONTROL) && self.right_control,
            left_alt: has_flag(target, OPTION_ALT) && (self.left_alt || !self.right_alt),
            right_alt: has_flag(target, OPTION_ALT) && self.right_alt,
            left_meta: has_flag(target, COMMAND_META) && (self.left_meta || !self.right_meta),
            right_meta: has_flag(target, COMMAND_META) && self.right_meta,
            caps_lock: self.caps_lock,
        }
    }

    /// A state with nothing held.
    pub fn new() -> (state: ModifierState)
        ensures
            state == ModifierState::released(),
    {
        ModifierState {
            caps_lock: false,
            left_shift: false,
            right_shift: false,
            left_control: false,
            right_control: false,
            left_alt: false,
            right_alt: false,
            left_meta: false,
            right_meta: false,
        }
    }

    /// Record an observed evdev key event. Returns whether the key was one
    /// of the tracked modifiers; any other key leaves the state unchanged.
    pub fn observe(&mut self, linux_key_code: u16, pressed: bool) -> (is_modifier: bool)
        ensures
            is_modifier == is_tracked_modifier(linux_key_code),
            *final(self) == old(self).after_key(linux_key_code, pressed),
    {
        if linux_key_code == KEY_CAPSLOCK {
            self.caps_lock = pressed;
            true
        } else if linux_key_code == KEY_LEFTSHIFT {
            self.left_shift = pressed;
            true
        } else if linux_key_code == KEY_RIGHTSHIFT {
            self.right_shift = pressed;
            true
        } else if linux_key_code == KEY_LEFTCTRL {
            self.left_control = pressed;
            true
        } else if linux_key_code == KEY_RIGHTCTRL {
            self.right_control = pressed;
            true
        } else if linux_key_code == KEY_LEFTALT {
            self.left_alt = pressed;
            true
        } else if linux_key_code == KEY_RIGHTALT {
            self.right_alt = pressed;
            true
        } else if linux_key_code == KEY_LEFTMETA {
            self.left_meta = pressed;
            true
        } else if linux_key_code == KEY_RIGHTMETA {
            self.right_meta = pressed;
            true
        } else {
            false
        }
    }

    /// The wire `modifierFlags` bitmask of the current state.
    pub fn to_bitmask(self) -> (flags: u64)
        ensures
            flags == self.bitmask(),
    {
        let mut flags: u64 = 0;
        if self.caps_lock {
            flags = flags + CAPS_LOCK;
        }
        if self.left_shift || self.right_shift {
            flags = flags + SHIFT;
        }
        if self.left_control || self.right_control {
            flags = flags + CONTROL;
        }
        if self.left_alt || self.right_alt {
            flags = flags + OPTION_ALT;
        }
        if self.left_meta || self.right_meta {
            flags = flags + COMMAND_META;
        }
        flags
    }

    /// The synthetic (evdev code, pressed) events that make the held
    /// modifiers match `target`, recording them in the state as it goes.
    /// A group that must go down is pressed with its left-hand key; a group
    /// that must come up has each of its held keys released. Afterwards the
    /// state's bitmask agrees with the target on shift, control, alt and
    /// meta, and caps lock is unchanged.
    pub fn diff_to_reach(&mut self, target: u64) -> (events: Vec<(u16, bool)>)
        ensures
            events@ == old(self).diff_events(target),
            *final(self) == old(self).diff_state(target),
            final(self).bitmask() & group_bits() == target & group_bits(),
            final(self).caps_lock == old(self).caps_lock,
    {
        let mut events: Vec<(u16, bool)> = Vec::new();
        let ghost s0 = *self;
        let want_shift = target & SHIFT != 0;
        Self::sync_group(&mut events, want_shift, &mut self.left_shift, &mut self.right_shift, KEY_LEFTSHIFT, KEY_RIGHTSHIFT);
        let want_control = target & CONTROL != 0;
        Self::sync_group(&mut events, want_control, &mut self.left_control, &mut self.right_control, KEY_LEFTCTRL, KEY_RIGHTCTRL);
        let want_alt = target & OPTION_ALT != 0;
        Self::sync_group(&mut events, want_alt, &mut self.left_alt, &mut self.right_alt, KEY_LEFTALT, KEY_RIGHTALT);
        let want_meta = target & COMMAND_META != 0;
        Self::sync_group(&mut events, want_meta, &mut self.left_meta, &mut self.right_meta, KEY_LEFTMETA, KEY_RIGHTMETA);
        proof {
            assert(events@ =~= s0.diff_events(target));
            lemma_diff_reaches_target(s0, target);
        }
        events
    }

    /// One group of `diff_to_reach`: appends its events and updates its two
    /// keys.
    fn sync_group(
        events: &mut Vec<(u16, bool)>,
        want: bool,
        left: &mut bool,
        right: &mut bool,
        left_code: u16,
        right_code: u16,
    )
        ensures
            final(events)@ == old(events)@ + group_events(want, *old(left), *old(right), left_code, right_code),
            *final(left) == (want && (*old(left) || !*old(right))),
            *final(right) == (want && *old(right)),
    {
        if want {
            if !*left && !*right {
                events.push((left_code, true));
                *left = true;
            }
        } else {
            if *left {
                events.push((left_code, false));
                *left = false;
            }
            if *right {
                events.push((right_code, false));
                *right = false;
            }
        }
        proof {
            assert(events@ =~= old(events)@ + group_events(want, *old(left), *old(right), left_code, right_code));
        }
    }
}

/// Reading a bit of the bitmask: each group's bit is set exactly when that
/// group has a key down, and no other bit is ever set.
pub proof fn lemma_bitmask_bits(state: ModifierState)
    ensures
        has_flag(state.bitmask(), CAPS_LOCK) == state.caps_lock,
        has_flag(state.bitmask(), SHIFT) == state.shift_held(),
        has_flag(state.bitmask(), CONTROL) == state.control_held(),
        has_flag(state.bitmask(), OPTION_ALT) == state.alt_held(),
        has_flag(state.bitmask(), COMMAND_META) == state.meta_held(),
        state.bitmask() & !(CAPS_LOCK | SHIFT | CONTROL | OPTION_ALT | COMMAND_META) == 0,
{
    let c = state.caps_lock;
    let s = state.shift_held();
    let k = state.control_held();
    let a = state.alt_held();
    let m = state.meta_held();
    let mask = state.bitmask();
    assert(mask == ((if c { 0x1_0000u64 } else { 0 }) + (if s { 0x2_0000u64 } else { 0 }) + (if k { 0x4_0000u64 } else { 0 }) + (if a { 0x8_0000u64 } else { 0 }) + (if m { 0x10_0000u64 } else { 0 })) as u64);
    assert({
        &&& (mask & 0x1_0000u64 != 0) == c
        &&& (mask & 0x2_0000u64 != 0) == s
        &&& (mask & 0x4_0000u64 != 0) == k
        &&& (mask & 0x8_0000u64 != 0) == a
        &&& (mask & 0x10_0000u64 != 0) == m
        &&& mask & !(0x1_0000u64 | 0x2_0000u64 | 0x4_0000u64 | 0x8_0000u64 | 0x10_0000u64) == 0
    }) by (bit_vector)
        requires
            mask == ((if c { 0x1_0000u64 } else { 0 }) + (if s { 0x2_0000u64 } else { 0 }) + (if k { 0x4_0000u64 } else { 0 }) + (if a { 0x8_0000u64 } else { 0 }) + (if m { 0x10_0000u64 } else { 0 })) as u64,
    ;
}

/// Replaying events one after another is replaying the first part, then
/// the second.
pub proof fn lemma_after_keys_append(state: ModifierState, a: Seq<(u16, bool)>, b: Seq<(u16, bool)>)
    ensures
        state.after_keys(a + b) == state.after_keys(a).after_keys(b),
    decreases a.len(),
{
    if a.len() > 0 {
        assert((a + b).drop_first() =~= a.drop_first() + b);
        lemma_after_keys_append(state.after_key(a[0].0, a[0].1), a.drop_first(), b);
    } else {
        assert(a + b =~= b);
    }
}

/// Replaying one group's events from a state.
proof fn lemma_group_replay(
    state: ModifierState,
    want: bool,
    left: bool,
    right: bool,
    left_code: u16,
    right_code: u16,
)
    requires
        left_code != right_code,
        state.key_held(left_code) == left,
        state.key_held(right_code) == right,
    ensures
        state.after_keys(group_events(want, left, right, left_code, right_code)) == (if want {
            if !left && !right {
                state.after_key(left_code, true)
            } else {
                state
            }
        } else {
            state.after_key(left_code, false).after_key(right_code, false)
        }),
{
    reveal_with_fuel(ModifierState::after_keys, 3);
    let e = group_events(want, left, right, left_code, right_code);
    if !want {
        let l: Seq<(u16, bool)> = if left { seq![(left_code, false)] } else { Seq::empty() };
        let r: Seq<(u16, bool)> = if right { seq![(right_code, false)] } else { Seq::empty() };
        lemma_after_keys_append(state, l, r);
        assert(state.after_keys(l) == state.after_key(left_code, false)) by {
            if !left {
                assert(state.after_key(left_code, false) =~= state);
            }
        }
        assert(state.after_key(left_code, false).after_keys(r) == state.after_key(
            left_code,
            false,
        ).after_key(right_code, false)) by {
            if !right {
                assert(state.after_key(left_code, false).after_key(right_code, false) =~= state.after_key(left_code, false));
            }
        }
    }
}

/// Replaying the synthetic events of `diff_to_reach` through `observe`
/// from the old state gives exactly the state `diff_to_reach` leaves.
pub proof fn lemma_diff_events_replay(state: ModifierState, target: u64)
    ensures
        state.after_keys(state.diff_events(target)) == state.diff_state(target),
{
    let g1 = group_events(has_flag(target, SHIFT), state.left_shift, state.right_shift, KEY_LEFTSHIFT, KEY_RIGHTSHIFT);
    let g2 = group_events(has_flag(target, CONTROL), state.left_control, state.right_control, KEY_LEFTCTRL, KEY_RIGHTCTRL);
    let g3 = group_events(has_flag(target, OPTION_ALT), state.left_alt, state.right_alt, KEY_LEFTALT, KEY_RIGHTALT);
    let g4 = group_events(has_flag(target, COMMAND_META), state.left_meta, state.right_meta, KEY_LEFTMETA, KEY_RIGHTMETA);
    lemma_after_keys_append(state, g1 + g2 + g3, g4);
    lemma_after_keys_append(state, g1 + g2, g3);
    lemma_after_keys_append(state, g1, g2);
    let s1 = state.after_keys(g1);
    lemma_group_replay(state, has_flag(target, SHIFT), state.left_shift, state.right_shift, KEY_LEFTSHIFT, KEY_RIGHTSHIFT);
    let s2 = s1.after_keys(g2);
    lemma_group_replay(s1, has_flag(target, CONTROL), state.left_control, state.right_control, KEY_LEFTCTRL, KEY_RIGHTCTRL);
    let s3 = s2.after_keys(g3);
    lemma_group_replay(s2, has_flag(target, OPTION_ALT), state.left_alt, state.right_alt, KEY_LEFTALT, KEY_RIGHTALT);
    lemma_group_replay(s3, has_flag(target, COMMAND_META), state.left_meta, state.right_meta, KEY_LEFTMETA, KEY_RIGHTMETA);
    assert(state.after_keys(state.diff_events(target)) =~= state.diff_state(target));
}

/// What each synthetic event of `diff_to_reach` satisfies: its pressed
/// state is what the target asks of its group; a press is of a left-hand
/// key of a group with no key held; a release is of a key that is held.
pub open spec fn diff_event_ok(state: ModifierState, target: u64, e: (u16, bool)) -> bool {
    &&& group_flag(e.0) != 0
    &&& has_flag(target, group_flag(e.0)) == e.1
    &&& e.1 ==> is_left_key(e.0) && !state.group_held(group_flag(e.0))
    &&& !e.1 ==> state.key_held(e.0)
}

proof fn lemma_group_shape(
    state: ModifierState,
    target: u64,
    flag: u64,
    left_code: u16,
    right_code: u16,
)
    requires
        flag != 0,
        group_flag(left_code) == flag,
        group_flag(right_code) == flag,
        is_left_key(left_code),
        state.group_held(flag) == (state.key_held(left_code) || state.key_held(right_code)),
    ensures
        ({
            let g = group_events(
                has_flag(target, flag),
                state.key_held(left_code),
                state.key_held(right_code),
                left_code,
                right_code,
            );
            &&& forall|i: int|
                0 <= i < g.len() ==> group_flag(#[trigger] g[i].0) == flag && diff_event_ok(
                    state,
                    target,
                    g[i],
                )
            &&& state.group_held(flag) == has_flag(target, flag) ==> g.len() == 0
        }),
{
}

/// The shape of `diff_to_reach`'s events: each one's pressed state is what
/// the target asks of its group; presses use the left-hand key of a group
/// with no key held, releases lift a key that is held (so a group gets
/// events only when its held state differs from the target); and the
/// groups come in the order shift, control, alt, meta.
pub proof fn lemma_diff_events_shape(state: ModifierState, target: u64)
    ensures
        ({
            let e = state.diff_events(target);
            &&& forall|i: int|
                0 <= i < e.len() ==> #[trigger] diff_event_ok(state, target, e[i])
            &&& forall|i: int|
                0 <= i < e.len() ==> state.group_held(group_flag(#[trigger] e[i].0)) != has_flag(
                    target,
                    group_flag(e[i].0),
                )
            &&& forall|i: int, j: int|
                0 <= i < j < e.len() ==> group_flag(#[trigger] e[i].0) <= group_flag(
                    #[trigger] e[j].0,
                )
        }),
{
    let g1 = group_events(has_flag(target, SHIFT), state.left_shift, state.right_shift, KEY_LEFTSHIFT, KEY_RIGHTSHIFT);
    let g2 = group_events(has_flag(target, CONTROL), state.left_control, state.right_control, KEY_LEFTCTRL, KEY_RIGHTCTRL);
    let g3 = group_events(has_flag(target, OPTION_ALT), state.left_alt, state.right_alt, KEY_LEFTALT, KEY_RIGHTALT);
    let g4 = group_events(has_flag(target, COMMAND_META), state.left_meta, state.right_meta, KEY_LEFTMETA, KEY_RIGHTMETA);
    lemma_group_shape(state, target, SHIFT, KEY_LEFTSHIFT, KEY_RIGHTSHIFT);
    lemma_group_shape(state, target, CONTROL, KEY_LEFTCTRL, KEY_RIGHTCTRL);
    lemma_group_shape(state, target, OPTION_ALT, KEY_LEFTALT, KEY_RIGHTALT);
    lemma_group_shape(state, target, COMMAND_META, KEY_LEFTMETA, KEY_RIGHTMETA);
    assert(state.diff_events(target) == g1 + g2 + g3 + g4);
    lemma_concat_groups(state, target, g1, g2, g3, g4);
}

/// The shape facts carry over from the four groups to their concatenation.
proof fn lemma_concat_groups(
    state: ModifierState,
    target: u64,
    g1: Seq<(u16, bool)>,
    g2: Seq<(u16, bool)>,
    g3: Seq<(u16, bool)>,
    g4: Seq<(u16, bool)>,
)
    requires
        forall|i: int| 0 <= i < g1.len() ==> group_flag(#[trigger] g1[i].0) == SHIFT && diff_event_ok(state, target, g1[i]),
        forall|i: int| 0 <= i < g2.len() ==> group_flag(#[trigger] g2[i].0) == CONTROL && diff_event_ok(state, target, g2[i]),
        forall|i: int| 0 <= i < g3.len() ==> group_flag(#[trigger] g3[i].0) == OPTION_ALT && diff_event_ok(state, target, g3[i]),
        forall|i: int| 0 <= i < g4.len() ==> group_flag(#[trigger] g4[i].0) == COMMAND_META && diff_event_ok(state, target, g4[i]),
    ensures
        ({
            let e = g1 + g2 + g3 + g4;
            &&& forall|i: int|
                0 <= i < e.len() ==> #[trigger] diff_event_ok(state, target, e[i])
            &&& forall|i: int|
                0 <= i < e.len() ==> state.group_held(group_flag(#[trigger] e[i].0)) != has_flag(
                    target,
                    group_flag(e[i].0),
                )
            &&& forall|i: int, j: int|
                0 <= i < j < e.len() ==> group_flag(#[trigger] e[i].0) <= group_flag(
                    #[trigger] e[j].0,
                )
        }),
{
    let e = g1 + g2 + g3 + g4;
    let n1 = g1.len() as int;
    let n2 = n1 + g2.len();
    let n3 = n2 + g3.len();
    assert forall|i: int| 0 <= i < e.len() implies group_flag(#[trigger] e[i].0) == (if i < n1 {
        SHIFT
    } else if i < n2 {
        CONTROL
    } else if i < n3 {
        OPTION_ALT
    } else {
        COMMAND_META
    }) && diff_event_ok(state, target, e[i]) by {
        if i < n1 {
            assert(e[i] == g1[i]);
        } else if i < n2 {
            assert(e[i] == g2[i - n1]);
        } else if i < n3 {
            assert(e[i] == g3[i - n2]);
        } else {
            assert(e[i] == g4[i - n3]);
        }
    }
    assert forall|i: int| 0 <= i < e.len() implies state.group_held(group_flag(#[trigger] e[i].0))
        != has_flag(target, group_flag(e[i].0)) by {
        assert(diff_event_ok(state, target, e[i]));
    }
    assert forall|i: int, j: int| 0 <= i < j < e.len() implies group_flag(#[trigger] e[i].0)
        <= group_flag(#[trigger] e[j].0) by {
        assert(group_flag(e[i].0) == (if i < n1 {
            SHIFT
        } else if i < n2 {
            CONTROL
        } else if i < n3 {
            OPTION_ALT
        } else {
            COMMAND_META
        }));
        assert(group_flag(e[j].0) == (if j < n1 {
            SHIFT
        } else if j < n2 {
            CONTROL
        } else if j < n3 {
            OPTION_ALT
        } else {
            COMMAND_META
        }));
    }
}

/// After `diff_to_reach(target)` every modifier group the target asks to
/// be down is held and every group it asks to be up is released, so the
/// state's bitmask agrees with the target on shift, control, alt and meta;
/// caps lock keeps its state.
pub proof fn lemma_diff_reaches_target(state: ModifierState, target: u64)
    ensures
        has_flag(state.diff_state(target).bitmask(), SHIFT) == has_flag(target, SHIFT),
        has_flag(state.diff_state(target).bitmask(), CONTROL) == has_flag(target, CONTROL),
        has_flag(state.diff_state(target).bitmask(), OPTION_ALT) == has_flag(target, OPTION_ALT),
        has_flag(state.diff_state(target).bitmask(), COMMAND_META) == has_flag(
            target,
            COMMAND_META,
        ),
        has_flag(state.diff_state(target).bitmask(), CAPS_LOCK) == state.caps_lock,
        state.diff_state(target).bitmask() & group_bits() == target & group_bits(),
{
    let after = state.diff_state(target);
    lemma_bitmask_bits(after);
    let x = after.bitmask();
    assert(x & group_bits() == target & group_bits()) by {
        assert(x & (0x2_0000u64 | 0x4_0000u64 | 0x8_0000u64 | 0x10_0000u64) == target & (0x2_0000u64
            | 0x4_0000u64 | 0x8_0000u64 | 0x10_0000u64)) by (bit_vector)
            requires
                (x & 0x2_0000u64 != 0) == (target & 0x2_0000u64 != 0),
                (x & 0x4_0000u64 != 0) == (target & 0x4_0000u64 != 0),
                (x & 0x8_0000u64 != 0) == (target & 0x8_0000u64 != 0),
                (x & 0x10_0000u64 != 0) == (target & 0x10_0000u64 != 0),
        ;
    }
}

/// Observing a key event sets exactly that key: a tracked modifier key is
/// held afterwards exactly when the event pressed it, every other key
/// keeps its state, and a key that is not a tracked modifier changes
/// nothing. In particular releasing Caps Lock clears it.
pub proof fn lemma_after_key_sets_only_that_key(state: ModifierState, code: u16, pressed: bool, other: u16)
    ensures
        is_tracked_modifier(code) ==> state.after_key(code, pressed).key_held(code) == pressed,
        other != code ==> state.after_key(code, pressed).key_held(other) == state.key_held(other),
        !is_tracked_modifier(code) ==> state.after_key(code, pressed) == state,
        state.after_key(KEY_CAPSLOCK, false).bitmask() & CAPS_LOCK == 0,
        state.after_key(KEY_CAPSLOCK, true).bitmask() & CAPS_LOCK != 0,
{
    lemma_bitmask_bits(state.after_key(KEY_CAPSLOCK, false));
    lemma_bitmask_bits(state.after_key(KEY_CAPSLOCK, true));
}

impl Default for ModifierState {
    /// Nothing held.
    fn default() -> (state: Self)
        ensures
            state == ModifierState::released(),
    {
        ModifierState::new()
    }
}
} // verus!
