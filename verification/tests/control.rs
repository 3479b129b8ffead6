use entanglo::control::{is_emergency_stop_hotkey, ControlState, LocalInputAction};
use entanglo::input_event::{InputEventKind, InputEventMessage, CONTROL, SHIFT};

fn key(kind: InputEventKind, key_code: Option<u16>, flags: u64) -> InputEventMessage {
    InputEventMessage {
        kind,
        x: None,
        y: None,
        delta_x: None,
        delta_y: None,
        button: None,
        key_code,
        media_key: None,
        modifier_flags: flags,
        pressed: Some(true),
        click_state: None,
    }
}

#[test]
fn hotkey_requires_exact_combo() {
    let ctrl_shift = CONTROL | SHIFT;
    assert!(is_emergency_stop_hotkey(&key(InputEventKind::KeyDown, Some(53), ctrl_shift)));
    assert!(!is_emergency_stop_hotkey(&key(InputEventKind::KeyDown, Some(53), 0)));
    assert!(!is_emergency_stop_hotkey(&key(InputEventKind::KeyDown, Some(53), CONTROL)));
    assert!(!is_emergency_stop_hotkey(&key(InputEventKind::KeyDown, Some(0), ctrl_shift)));
    assert!(!is_emergency_stop_hotkey(&key(InputEventKind::KeyUp, Some(53), ctrl_shift)));
}

#[test]
fn emergency_stop_blocks_forwarding_until_resumed() {
    let mut state = ControlState::new();
    let b = state.register_peer();
    state.set_active_receiver(Some(b));
    assert_eq!(state.send_to_active_receiver(), Some(b));
    state.emergency_stop();
    assert!(state.is_emergency_stopped());
    assert_eq!(state.send_to_active_receiver(), None);
    assert!(!state.on_peer_input(b));
    state.resume();
    assert!(!state.is_emergency_stopped());
    assert_eq!(state.active_receiver(), Some(b));
    assert_eq!(state.send_to_active_receiver(), Some(b));
}

#[test]
fn first_peer_to_send_input_holds_control() {
    let mut state = ControlState::new();
    let a = state.register_peer();
    let b = state.register_peer();
    assert_eq!((a, b), (0, 1));
    assert!(state.on_peer_input(b));
    assert!(!state.on_peer_input(a));
    assert!(state.on_peer_input(b));
    assert_eq!(state.being_controlled_by(), Some(b));
}

#[test]
fn local_input_releases_control_and_forwards() {
    let mut state = ControlState::new();
    let a = state.register_peer();
    let b = state.register_peer();
    state.set_active_receiver(Some(a));
    assert!(state.on_peer_input(b));
    let action = state.on_local_input(&key(InputEventKind::KeyDown, Some(0), 0));
    assert_eq!(action, LocalInputAction { consumed: false, release_to: Some(b), forward_to: Some(a) });
    assert_eq!(state.being_controlled_by(), None);
    let again = state.on_local_input(&key(InputEventKind::KeyDown, Some(0), 0));
    assert_eq!(again.release_to, None);
}

#[test]
fn hotkey_toggles_the_stop_and_is_consumed() {
    let mut state = ControlState::new();
    let a = state.register_peer();
    state.set_active_receiver(Some(a));
    let hotkey = key(InputEventKind::KeyDown, Some(53), CONTROL | SHIFT);
    let action = state.on_local_input(&hotkey);
    assert_eq!(action, LocalInputAction { consumed: true, release_to: None, forward_to: None });
    assert!(state.is_emergency_stopped());
    let plain = state.on_local_input(&key(InputEventKind::KeyDown, Some(0), 0));
    assert_eq!(plain.forward_to, None);
    state.on_local_input(&hotkey);
    assert!(!state.is_emergency_stopped());
}

#[test]
fn release_control_clears_active_receiver_on_controller_side() {
    let mut state = ControlState::new();
    let a = state.register_peer();
    let b = state.register_peer();
    state.set_active_receiver(Some(a));
    state.on_release_control(b);
    assert_eq!(state.active_receiver(), Some(a));
    state.on_release_control(a);
    assert_eq!(state.active_receiver(), None);
}

#[test]
fn disconnect_forgets_the_connection() {
    let mut state = ControlState::new();
    let a = state.register_peer();
    let b = state.register_peer();
    state.identify(a, &"device-a".to_string());
    state.identify(b, &"device-b".to_string());
    assert_eq!(state.known_device_ids(), vec!["device-a".to_string(), "device-b".to_string()]);
    state.set_active_receiver(Some(b));
    assert!(state.on_peer_input(b));
    state.disconnect(b);
    assert!(!state.has_peer(b));
    assert!(state.has_peer(a));
    assert_eq!(state.active_receiver(), None);
    assert_eq!(state.being_controlled_by(), None);
    assert_eq!(state.known_device_ids(), vec!["device-a".to_string()]);
    assert_eq!(state.send_to_active_receiver(), None);
}

#[test]
fn receiver_that_disconnected_gets_nothing() {
    let mut state = ControlState::new();
    state.set_active_receiver(Some(7));
    assert_eq!(state.send_to_active_receiver(), None);
}
