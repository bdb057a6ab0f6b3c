use hand_gesture_controller::frame::{
    analyze, passes_confidence_gate, stop_requested, Observation, LANDMARK_COUNT,
    PINCH_LABEL, SCROLL_LABEL,
};
use hand_gesture_controller::geometry::{distance, Point};
use hand_gesture_controller::intent::{ActionIntent, ModifierKey, PointerButton, Reaction};
use hand_gesture_controller::machine::{scroll_ticks, InteractionState, Mode};

fn press() -> Vec<ActionIntent> {
    vec![
        ActionIntent::ButtonDown(PointerButton::Secondary),
        ActionIntent::ModifierDown(ModifierKey::Control),
    ]
}

fn release() -> Vec<ActionIntent> {
    vec![
        ActionIntent::ModifierUp(ModifierKey::Control),
        ActionIntent::ButtonUp(PointerButton::Secondary),
    ]
}

/// A hand whose thumb tip is at `thumb` and whose index and middle tips are
/// `pinch_px` and `middle_px` pixels to its right.
fn hand(thumb: Point, pinch_px: i32, middle_px: i32) -> Vec<Point> {
    let mut lm = vec![Point::new(0, 0); LANDMARK_COUNT];
    lm[4] = thumb;
    lm[8] = Point::new(thumb.x + pinch_px, thumb.y);
    lm[12] = Point::new(thumb.x + middle_px, thumb.y);
    lm
}

fn frame(label: u32, confidence: u32, landmarks: Vec<Point>) -> Observation {
    Observation { landmarks, label, confidence }
}

#[test]
fn distance_to_itself_is_zero() {
    let p = Point::new(123, -45);
    assert_eq!(distance(p, p), 0);
}

#[test]
fn distance_is_symmetric() {
    let p = Point::new(3, 7);
    let q = Point::new(-20, 41);
    assert_eq!(distance(p, q), distance(q, p));
}

#[test]
fn distance_in_tenths_of_a_pixel() {
    assert_eq!(distance(Point::new(0, 0), Point::new(3, 4)), 50);
    assert_eq!(distance(Point::new(0, 0), Point::new(1, 1)), 14);
    assert_eq!(distance(Point::new(10, 10), Point::new(10, 130)), 1200);
}

#[test]
fn distance_at_the_extremes() {
    let a = Point::new(i32::MIN, i32::MIN);
    let b = Point::new(i32::MAX, i32::MAX);
    // sqrt(2) * (2^32 - 1) pixels, in tenths, rounded down.
    assert_eq!(distance(a, b), 60740009985);
}

#[test]
fn analyze_reads_thumb_index_and_middle() {
    let lm = hand(Point::new(100, 50), 30, 40);
    let s = analyze(&lm);
    assert_eq!(s.pinch, 300);
    assert_eq!(s.spread, 300 + 100 + 400);
    assert_eq!(s.pointer, Point::new(100, 50));
}

#[test]
fn hysteresis_presses_once_and_releases_once() {
    let tip = Point::new(200, 200);
    let mut s = InteractionState::new();
    let outs: Vec<Reaction> = [2000u64, 600, 600, 1000, 1300]
        .iter()
        .map(|&p| s.on_pinch(p, tip))
        .collect();
    assert!(outs[0].intents.is_empty() && !outs[0].recenter);
    assert_eq!(outs[1].intents, press());
    assert!(outs[1].recenter);
    assert!(outs[2].intents.is_empty());
    assert!(outs[3].intents.is_empty());
    assert_eq!(outs[4].intents, release());
    assert!(!s.button_down);
}

#[test]
fn no_drag_while_released() {
    let mut s = InteractionState::new();
    // Not pressed: a large fingertip move under the movement threshold.
    let r = s.on_pinch(1000, Point::new(300, 300));
    assert!(r.intents.is_empty());
    assert_eq!(s.last_pointer, Point::new(300, 300));
    assert!(!s.button_down);
    // Pressed: the same kind of move drags.
    s.on_pinch(500, Point::new(300, 300));
    let r = s.on_pinch(1000, Point::new(320, 290));
    assert_eq!(r.intents, vec![ActionIntent::MoveBy { dx: 20, dy: -10 }]);
    // Released at this frame: no movement even though the tip moved.
    let r = s.on_pinch(1400, Point::new(360, 250));
    assert_eq!(r.intents, release());
    assert_eq!(s.mode, Mode::Released);
}

#[test]
fn movement_needs_both_axes_outside_dead_zone() {
    let mut s = InteractionState::new();
    s.on_pinch(500, Point::new(100, 100));
    let r = s.on_pinch(900, Point::new(150, 103));
    assert!(r.intents.is_empty());
    assert_eq!(s.last_pointer, Point::new(100, 100));
    let r = s.on_pinch(900, Point::new(106, 94));
    assert_eq!(r.intents, vec![ActionIntent::MoveBy { dx: 6, dy: -6 }]);
}

#[test]
fn scroll_seeds_on_first_frame() {
    let mut s = InteractionState::new();
    let r = s.on_spread(5000);
    assert!(r.intents.is_empty());
    assert_eq!(s.scroll_baseline, Some(5000));
    assert_eq!(s.mode, Mode::Scrolling);
}

#[test]
fn scroll_seeds_again_after_leaving_scroll_class() {
    let mut s = InteractionState::new();
    s.on_spread(5000);
    s.on_pinch(2000, Point::new(0, 0));
    assert_eq!(s.scroll_baseline, None);
    let r = s.on_spread(6000);
    assert!(r.intents.is_empty());
    let mut t = InteractionState::new();
    t.on_spread(5000);
    t.on_other();
    let r = t.on_spread(6000);
    assert!(r.intents.is_empty());
}

#[test]
fn scroll_dead_zone_and_noise_bound() {
    assert_eq!(scroll_ticks(50), None);
    assert_eq!(scroll_ticks(1000), Some(2));
    assert_eq!(scroll_ticks(5000), None);
    assert_eq!(scroll_ticks(-1000), Some(-2));
    assert_eq!(scroll_ticks(100), None);
    assert_eq!(scroll_ticks(101), Some(0));
    assert_eq!(scroll_ticks(2999), Some(5));
    assert_eq!(scroll_ticks(3000), None);
    assert_eq!(scroll_ticks(-3000), None);
}

#[test]
fn scroll_frames_emit_by_delta() {
    let mut s = InteractionState::new();
    s.on_spread(2000);
    assert!(s.on_spread(2050).intents.is_empty());
    assert_eq!(s.on_spread(3050).intents, vec![ActionIntent::ScrollBy(2)]);
    assert!(s.on_spread(8050).intents.is_empty());
    assert_eq!(s.scroll_baseline, Some(8050));
}

#[test]
fn confidence_gate() {
    assert!(!passes_confidence_gate(940_000));
    assert!(!passes_confidence_gate(950_000));
    assert!(passes_confidence_gate(960_000));
    let lm = hand(Point::new(100, 100), 70, 90);
    let mut s = InteractionState::new();
    let before = s;
    let r = s.observe(&frame(PINCH_LABEL, 940_000, lm.clone()));
    assert!(r.is_empty());
    assert_eq!(s, before);
    let r = s.observe(&frame(PINCH_LABEL, 960_000, lm));
    assert_eq!(r.intents, press());
    assert!(s.button_down);
}

#[test]
fn end_to_end_pinch_click() {
    let thumb = Point::new(320, 240);
    let mut s = InteractionState::new();
    let outs: Vec<Reaction> = [120, 70, 70, 70, 140]
        .iter()
        .map(|&px| s.observe(&frame(PINCH_LABEL, 990_000, hand(thumb, px, px + 20))))
        .collect();
    assert!(outs[0].intents.is_empty());
    assert_eq!(outs[1].intents, press());
    assert!(outs[2].intents.is_empty());
    assert!(outs[3].intents.is_empty());
    assert_eq!(outs[4].intents, release());
}

#[test]
fn other_labels_only_drop_scroll_baseline() {
    let mut s = InteractionState::new();
    s.observe(&frame(SCROLL_LABEL, 990_000, hand(Point::new(0, 0), 100, 200)));
    let r = s.observe(&frame(7, 990_000, hand(Point::new(0, 0), 10, 20)));
    assert!(r.is_empty());
    assert_eq!(s.mode, Mode::Scrolling);
    assert_eq!(s.scroll_baseline, None);
    let r = s.observe(&frame(SCROLL_LABEL, 990_000, hand(Point::new(0, 0), 400, 900)));
    assert!(r.intents.is_empty());
    assert_eq!(s.scroll_baseline, Some(4000 + 5000 + 9000));
}

#[test]
fn release_lasts_until_next_pinch_frame() {
    let tip = Point::new(50, 50);
    let mut s = InteractionState::new();
    s.on_pinch(500, tip);
    s.on_pinch(1300, tip);
    assert_eq!(s.mode, Mode::Released);
    let before = s;
    let r = s.on_other();
    assert!(r.is_empty());
    assert_eq!(s, before);
    let r = s.on_pinch(1000, tip);
    assert!(r.intents.is_empty());
    assert_eq!(s.mode, Mode::Idle);
}

#[test]
fn scrolling_keeps_a_held_button() {
    let mut s = InteractionState::new();
    s.on_pinch(500, Point::new(0, 0));
    s.on_spread(1000);
    assert_eq!(s.mode, Mode::PressEngaged);
    assert!(s.button_down);
}

#[test]
fn stop_key() {
    assert!(stop_requested('q' as i32));
    assert!(!stop_requested('a' as i32));
    assert!(!stop_requested(-1));
}
