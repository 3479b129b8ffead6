use entanglo::capture::{InputCaptureService, RawInputEvent};
use entanglo::input_event::{InputEventKind, SHIFT};
use evdev::{EventType, InputEvent};

fn raw(event: InputEvent) -> RawInputEvent {
    RawInputEvent { event_type: event.event_type().0, code: event.code(), value: event.value() }
}

#[test]
fn left_click_translates_to_mouse_down_not_a_dropped_keycode() {
    let mut capture = InputCaptureService::new();
    let event = InputEvent::new(EventType::KEY, 0x110 /* BTN_LEFT */, 1);
    let msg = capture
        .translate(raw(event))
        .expect("BTN_LEFT must translate to a wire message");
    assert_eq!(msg.kind, InputEventKind::MouseDown);
    assert_eq!(msg.button, Some(0));
    assert_eq!(msg.pressed, Some(true));
    assert_eq!(msg.key_code, None);
}

#[test]
fn right_click_release_translates_to_mouse_up() {
    let mut capture = InputCaptureService::new();
    let event = InputEvent::new(EventType::KEY, 0x111 /* BTN_RIGHT */, 0);
    let msg = capture.translate(raw(event)).expect("BTN_RIGHT must translate");
    assert_eq!(msg.kind, InputEventKind::MouseUp);
    assert_eq!(msg.button, Some(1));
    assert_eq!(msg.pressed, Some(false));
}

#[test]
fn ordinary_key_still_translates_as_a_keyboard_event() {
    let mut capture = InputCaptureService::new();
    let event = InputEvent::new(EventType::KEY, 30 /* KEY_A */, 1);
    let msg = capture.translate(raw(event)).expect("KEY_A must translate");
    assert_eq!(msg.kind, InputEventKind::KeyDown);
    assert_eq!(msg.key_code, Some(0)); // macOS virtual key code for 'A'
    assert_eq!(msg.button, None);
}

#[test]
fn shift_is_forwarded_and_carried_in_the_bitmask() {
    let mut capture = InputCaptureService::new();
    let shift = capture.translate(RawInputEvent { event_type: 1, code: 42, value: 1 }).unwrap();
    assert_eq!(shift.kind, InputEventKind::KeyDown);
    assert_eq!(shift.key_code, Some(56));
    assert_eq!(shift.modifier_flags, SHIFT);
    let a = capture.translate(RawInputEvent { event_type: 1, code: 30, value: 1 }).unwrap();
    assert_eq!(a.modifier_flags, SHIFT);
    let up = capture.translate(RawInputEvent { event_type: 1, code: 42, value: 0 }).unwrap();
    assert_eq!(up.kind, InputEventKind::KeyUp);
    assert_eq!(up.modifier_flags, 0);
}

#[test]
fn motion_and_wheel_translate_to_deltas() {
    let mut capture = InputCaptureService::new();
    let dx = capture.translate(RawInputEvent { event_type: 2, code: 0, value: -7 }).unwrap();
    assert_eq!(dx.kind, InputEventKind::MouseMove);
    assert_eq!((dx.delta_x, dx.delta_y), (Some(-7), None));
    let dy = capture.translate(RawInputEvent { event_type: 2, code: 1, value: 4 }).unwrap();
    assert_eq!((dy.delta_x, dy.delta_y), (None, Some(4)));
    let wheel = capture.translate(RawInputEvent { event_type: 2, code: 8, value: -2 }).unwrap();
    assert_eq!(wheel.kind, InputEventKind::Scroll);
    assert_eq!(wheel.delta_y, Some(-20));
    assert_eq!(capture.translate(RawInputEvent { event_type: 2, code: 6, value: 1 }), None);
    assert_eq!(capture.translate(RawInputEvent { event_type: 4, code: 4, value: 1 }), None);
}

#[test]
fn unmapped_key_is_dropped_but_still_updates_nothing_else() {
    let mut capture = InputCaptureService::new();
    assert_eq!(capture.translate(RawInputEvent { event_type: 1, code: 183, value: 1 }), None);
}
