use entanglo::edge::{edge_for_x, EdgeTracker, ScreenEdge};

#[test]
fn left_edge_is_x_at_or_below_zero() {
    assert_eq!(edge_for_x(0, 1920), Some(ScreenEdge::Left));
    assert_eq!(edge_for_x(-1, 1920), Some(ScreenEdge::Left));
    assert_eq!(edge_for_x(1, 1920), None);
}

#[test]
fn right_edge_is_x_at_or_above_screen_width_minus_one() {
    assert_eq!(edge_for_x(1919, 1920), Some(ScreenEdge::Right));
    assert_eq!(edge_for_x(1920, 1920), Some(ScreenEdge::Right));
    assert_eq!(edge_for_x(1918, 1920), None);
}

#[test]
fn middle_of_screen_is_no_edge() {
    assert_eq!(edge_for_x(960, 1920), None);
}

#[test]
fn edge_labels() {
    assert_eq!(ScreenEdge::Left.label(), "Left edge");
    assert_eq!(ScreenEdge::Right.label(), "Right edge");
}

#[test]
fn resting_at_an_edge_reports_it_once() {
    let mut tracker = EdgeTracker::new();
    assert_eq!(tracker.poll(960, 1920), None);
    assert_eq!(tracker.poll(0, 1920), Some(ScreenEdge::Left));
    assert_eq!(tracker.poll(0, 1920), None);
    assert_eq!(tracker.poll(-3, 1920), None);
    assert_eq!(tracker.poll(1919, 1920), Some(ScreenEdge::Right));
    assert_eq!(tracker.poll(500, 1920), None);
    assert_eq!(tracker.poll(1919, 1920), Some(ScreenEdge::Right));
}
