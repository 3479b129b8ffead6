use entanglo::capture::{InputCaptureService, RawInputEvent};
use entanglo::inject::{saturating_i32, DeviceWrite, InjectionError, InjectionPlanner};
use entanglo::input_event::{InputEventKind, InputEventMessage, CONTROL, SHIFT};

fn message(kind: InputEventKind) -> InputEventMessage {
    InputEventMessage {
        kind,
        x: None,
        y: None,
        delta_x: None,
        delta_y: None,
        button: None,
        key_code: None,
        media_key: None,
        modifier_flags: 0,
        pressed: None,
        click_state: None,
    }
}

#[test]
fn key_down_with_shift_syncs_modifier_first() {
    let mut planner = InjectionPlanner::new();
    let event = InputEventMessage { key_code: Some(0), modifier_flags: SHIFT, ..message(InputEventKind::KeyDown) };
    let (writes, result) = planner.plan(&event);
    assert_eq!(result, Ok(()));
    assert_eq!(
        writes,
        vec![DeviceWrite::Key { code: 42, pressed: true }, DeviceWrite::Key { code: 30, pressed: true }]
    );
    // Shift already held: no second sync.
    let release = InputEventMessage { key_code: Some(0), modifier_flags: SHIFT, ..message(InputEventKind::KeyUp) };
    let (writes, _) = planner.plan(&release);
    assert_eq!(writes, vec![DeviceWrite::Key { code: 30, pressed: false }]);
}

#[test]
fn unmapped_key_is_an_error_after_the_modifier_sync() {
    let mut planner = InjectionPlanner::new();
    let event = InputEventMessage { key_code: Some(10), modifier_flags: CONTROL, ..message(InputEventKind::KeyDown) };
    let (writes, result) = planner.plan(&event);
    assert_eq!(writes, vec![DeviceWrite::Key { code: 29, pressed: true }]);
    assert_eq!(result, Err(InjectionError::UnmappedKeyCode(10)));
}

#[test]
fn mouse_buttons_motion_and_scroll() {
    let mut planner = InjectionPlanner::new();
    let down = InputEventMessage { button: Some(2), ..message(InputEventKind::MouseDown) };
    assert_eq!(planner.plan(&down).0, vec![DeviceWrite::Key { code: 0x112, pressed: true }]);
    let up = InputEventMessage { button: Some(1), ..message(InputEventKind::MouseUp) };
    assert_eq!(planner.plan(&up).0, vec![DeviceWrite::Key { code: 0x111, pressed: false }]);
    let unknown = InputEventMessage { button: Some(7), ..message(InputEventKind::MouseDown) };
    assert_eq!(planner.plan(&unknown), (vec![], Ok(())));
    let motion = InputEventMessage { delta_x: Some(3), delta_y: Some(-4), ..message(InputEventKind::MouseMove) };
    assert_eq!(planner.plan(&motion).0, vec![DeviceWrite::Motion { dx: 3, dy: -4 }]);
    let half = InputEventMessage { delta_x: Some(3), ..message(InputEventKind::MouseMove) };
    assert_eq!(planner.plan(&half).0, vec![]);
    let scroll = InputEventMessage { delta_y: Some(-25), ..message(InputEventKind::Scroll) };
    assert_eq!(planner.plan(&scroll).0, vec![DeviceWrite::Wheel { ticks: -2 }]);
    let media = message(InputEventKind::MediaKey);
    assert_eq!(planner.plan(&media), (vec![], Ok(())));
}

#[test]
fn huge_deltas_saturate() {
    assert_eq!(saturating_i32(5_000_000_000), i32::MAX);
    assert_eq!(saturating_i32(-5_000_000_000), i32::MIN);
    assert_eq!(saturating_i32(-12), -12);
}

#[test]
fn captured_key_is_injected_as_the_same_key() {
    let mut capture = InputCaptureService::new();
    let mut planner = InjectionPlanner::new();
    for code in [30u16, 2, 28, 105, 0x110, 0x112] {
        let msg = capture.translate(RawInputEvent { event_type: 1, code, value: 1 }).unwrap();
        let (writes, result) = planner.plan(&msg);
        assert_eq!(result, Ok(()));
        assert_eq!(writes.last(), Some(&DeviceWrite::Key { code, pressed: true }));
    }
}
