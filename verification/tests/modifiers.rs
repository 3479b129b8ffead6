use entanglo::input_event::{CAPS_LOCK, COMMAND_META, CONTROL, OPTION_ALT, SHIFT};
use entanglo::modifiers::ModifierState;

#[test]
fn shift_press_sets_bitmask() {
    let mut state = ModifierState::default();
    assert!(state.observe(42, true)); // KEY_LEFTSHIFT down
    assert_eq!(state.to_bitmask(), SHIFT);
}

#[test]
fn diff_to_reach_synthesizes_missing_shift() {
    let mut state = ModifierState::default();
    let events = state.diff_to_reach(SHIFT);
    assert_eq!(events, vec![(42, true)]);
    assert!(state.left_shift);
}

#[test]
fn non_modifier_keys_are_not_tracked() {
    let mut state = ModifierState::new();
    assert!(!state.observe(30, true));
    assert_eq!(state, ModifierState::new());
    assert_eq!(state.to_bitmask(), 0);
}

#[test]
fn each_group_sets_its_own_bit() {
    let mut state = ModifierState::new();
    state.observe(58, true);
    state.observe(54, true);
    state.observe(97, true);
    state.observe(100, true);
    state.observe(126, true);
    assert_eq!(state.to_bitmask(), CAPS_LOCK | SHIFT | CONTROL | OPTION_ALT | COMMAND_META);
    assert_eq!(state.to_bitmask(), 0x1f_0000);
    state.observe(54, false);
    assert_eq!(state.to_bitmask(), CAPS_LOCK | CONTROL | OPTION_ALT | COMMAND_META);
}

#[test]
fn diff_to_reach_releases_and_presses_in_order() {
    let mut state = ModifierState::new();
    state.observe(29, true); // left control held
    let events = state.diff_to_reach(SHIFT | COMMAND_META);
    assert_eq!(events, vec![(42, true), (29, false), (125, true)]);
    assert_eq!(state.to_bitmask(), SHIFT | COMMAND_META);
    assert!(state.diff_to_reach(SHIFT | COMMAND_META).is_empty());
}

#[test]
fn diff_to_reach_releases_a_held_right_key() {
    let mut state = ModifierState::new();
    state.observe(54, true);
    let events = state.diff_to_reach(0);
    assert_eq!(events, vec![(54, false)]);
    assert!(!state.right_shift);
    assert!(!state.left_shift);
    assert_eq!(state.to_bitmask(), 0);
}

#[test]
fn diff_to_reach_releases_both_keys_of_a_group_left_first() {
    let mut state = ModifierState::new();
    state.observe(58, true);
    state.observe(29, true);
    state.observe(97, true);
    state.observe(100, true);
    let events = state.diff_to_reach(OPTION_ALT);
    assert_eq!(events, vec![(29, false), (97, false)]);
    assert_eq!(state.to_bitmask(), CAPS_LOCK | OPTION_ALT);
    assert!(state.right_alt && !state.left_alt);
}

#[test]
fn replaying_diff_events_through_observe_gives_the_same_state() {
    let mut start = ModifierState::new();
    start.observe(56, true);
    let mut planned = start;
    let events = planned.diff_to_reach(CONTROL);
    let mut replayed = start;
    for (code, pressed) in events {
        replayed.observe(code, pressed);
    }
    assert_eq!(replayed, planned);
}
