use mouser::mouse_hook::{classify_direction, ll_mouse_decision, windows_decision, HC_ACTION, WM_XBUTTONDOWN, LLMHF_INJECTED, macos_decision, Motion, CG_MOUSE_MOVED, CG_OTHER_MOUSE_DOWN, CG_OTHER_MOUSE_UP, CG_SCROLL_WHEEL, choose_mouse_device, BlockedEvents, CallbackMap, GestureConfig, GestureDetector, MouseCandidate, MouseEvent, MouseEventType, LOGI_VENDOR};

fn detector(threshold: u32, deadzone: u32) -> GestureDetector {
    let cfg = GestureConfig { threshold, deadzone, timeout_ms: 3000, cooldown_ms: 0, confirm_ms: 0 };
    let mut d = GestureDetector::new(cfg);
    d.set_enabled(true);
    d.on_button_down(0);
    d
}

#[test]
fn threshold_not_crossed_returns_none() {
    let mut d = detector(50, 10);
    let result = d.accumulate(49, 0, "test", 1);
    assert_eq!(result, None);
}

#[test]
fn threshold_crossed_right() {
    let mut d = detector(50, 10);
    let result = d.accumulate(55, 0, "test", 1);
    assert_eq!(result, Some(MouseEvent::GestureSwipeRight));
}

#[test]
fn threshold_crossed_left() {
    let mut d = detector(50, 10);
    let result = d.accumulate(-55, 0, "test", 1);
    assert_eq!(result, Some(MouseEvent::GestureSwipeLeft));
}

#[test]
fn threshold_crossed_down() {
    let mut d = detector(50, 10);
    let result = d.accumulate(0, 55, "test", 1);
    assert_eq!(result, Some(MouseEvent::GestureSwipeDown));
}

#[test]
fn threshold_crossed_up() {
    let mut d = detector(50, 10);
    let result = d.accumulate(0, -55, "test", 1);
    assert_eq!(result, Some(MouseEvent::GestureSwipeUp));
}

#[test]
fn near_diagonal_classified_by_atan2() {
    let mut d = detector(50, 40);
    let result = d.accumulate(55, 45, "test", 1);
    assert_eq!(result, Some(MouseEvent::GestureSwipeRight), "39° should map to Right");
}

#[test]
fn deadzone_allows_clean_horizontal() {
    let mut d = detector(50, 40);
    let result = d.accumulate(55, 5, "test", 1);
    assert_eq!(result, Some(MouseEvent::GestureSwipeRight));
}

#[test]
fn deadzone_allows_clean_vertical() {
    let mut d = detector(50, 40);
    let result = d.accumulate(5, -55, "test", 1);
    assert_eq!(result, Some(MouseEvent::GestureSwipeUp));
}

#[test]
fn multi_step_accumulation_right() {
    let mut d = detector(50, 10);
    assert_eq!(d.accumulate(20, 0, "test", 1), None);
    assert_eq!(d.accumulate(20, 0, "test", 2), None);
    let result = d.accumulate(15, 0, "test", 3);
    assert_eq!(result, Some(MouseEvent::GestureSwipeRight));
}

#[test]
fn disabled_detector_never_fires() {
    let cfg = GestureConfig { threshold: 10, deadzone: 0, timeout_ms: 3000, cooldown_ms: 0, confirm_ms: 0 };
    let mut d = GestureDetector::new(cfg);
    d.on_button_down(0);
    let result = d.accumulate(100, 0, "test", 1);
    assert_eq!(result, None);
}

#[test]
fn no_movement_produces_click() {
    let cfg = GestureConfig { threshold: 50, deadzone: 10, timeout_ms: 3000, cooldown_ms: 0, confirm_ms: 0 };
    let mut d = GestureDetector::new(cfg);
    d.set_enabled(true);
    d.on_button_down(0);
    let result = d.on_button_up();
    assert_eq!(result, Some(MouseEvent::GestureClick));
}

#[test]
fn swipe_suppresses_click() {
    let mut d = detector(50, 10);
    let swipe = d.accumulate(100, 0, "test", 1);
    assert_eq!(swipe, Some(MouseEvent::GestureSwipeRight));
    let click = d.on_button_up();
    assert_eq!(click, None);
}

#[test]
fn direction_detection_all_axes() {
    let cases: &[(i32, i32, MouseEvent)] = &[
        (100, 0, MouseEvent::GestureSwipeRight),
        (-100, 0, MouseEvent::GestureSwipeLeft),
        (0, 100, MouseEvent::GestureSwipeDown),
        (0, -100, MouseEvent::GestureSwipeUp),
    ];
    for &(dx, dy, expected) in cases {
        let mut d = detector(50, 10);
        let result = d.accumulate(dx, dy, "test", 1);
        assert_eq!(result, Some(expected), "dx={dx} dy={dy}");
    }
}

#[test]
fn cooldown_blocks_second_swipe() {
    let cfg = GestureConfig { threshold: 50, deadzone: 10, timeout_ms: 3000, cooldown_ms: 500, confirm_ms: 0 };
    let mut d = GestureDetector::new(cfg);
    d.set_enabled(true);
    d.on_button_down(0);
    assert_eq!(d.accumulate(100, 0, "test", 1), Some(MouseEvent::GestureSwipeRight));
    assert_eq!(d.on_button_up(), None);
    d.on_button_down(100);
    assert_eq!(d.accumulate(100, 0, "test", 150), None);
}

#[test]
fn blocked_events_block_and_unblock() {
    let mut b = BlockedEvents::new();
    assert!(!b.contains(MouseEventType::XButton1Down));
    b.block(MouseEventType::XButton1Down);
    b.block(MouseEventType::XButton1Down);
    b.block(MouseEventType::HScrollLeft);
    assert!(b.contains(MouseEventType::XButton1Down));
    assert!(b.contains(MouseEventType::HScrollLeft));
    assert_eq!(b.as_slice().len(), 2);
    b.unblock(MouseEventType::XButton1Down);
    assert!(!b.contains(MouseEventType::XButton1Down));
    assert!(b.contains(MouseEventType::HScrollLeft));
    b.clear();
    assert!(b.as_slice().is_empty());
}

#[test]
fn callback_map_dispatches_in_registration_order() {
    let mut m: CallbackMap<&str> = CallbackMap::new();
    m.register(MouseEventType::XButton1Down, "first");
    m.register(MouseEventType::MiddleDown, "other");
    m.register(MouseEventType::XButton1Down, "second");
    let hits = m.dispatch(MouseEventType::XButton1Down);
    assert_eq!(hits, vec![0, 2]);
    assert_eq!(*m.handler(hits[0]), "first");
    assert_eq!(*m.handler(hits[1]), "second");
    assert!(m.dispatch(MouseEventType::GestureClick).is_empty());
    m.clear();
    assert!(m.dispatch(MouseEventType::XButton1Down).is_empty());
}

fn candidate(mouse: bool, side: bool, vendor: u16) -> MouseCandidate {
    MouseCandidate { has_rel_x: mouse, has_rel_y: mouse, has_btn_left: mouse, has_side_buttons: side, vendor }
}

#[test]
fn choose_mouse_prefers_logitech_with_side_buttons() {
    let devices = vec![
        candidate(false, true, LOGI_VENDOR),
        candidate(true, true, 0x1234),
        candidate(true, false, LOGI_VENDOR),
        candidate(true, true, LOGI_VENDOR),
        candidate(true, true, LOGI_VENDOR),
    ];
    assert_eq!(choose_mouse_device(&devices), Some(3));
    assert_eq!(choose_mouse_device(&vec![candidate(false, true, LOGI_VENDOR)]), None);
    assert_eq!(choose_mouse_device(&vec![candidate(true, false, 1), candidate(true, true, 1)]), Some(1));
}

#[test]
fn macos_tap_decisions() {
    let blocked = [MouseEventType::XButton1Down, MouseEventType::HScrollLeft];
    let d = macos_decision(CG_OTHER_MOUSE_DOWN, 3, 0, 0, 0, &blocked, false);
    assert_eq!(d.event, Some(MouseEvent::XButton1Down));
    assert!(!d.forward);
    let d = macos_decision(CG_OTHER_MOUSE_UP, 3, 0, 0, 0, &blocked, false);
    assert_eq!(d.event, Some(MouseEvent::XButton1Up));
    assert!(d.forward);
    let d = macos_decision(CG_OTHER_MOUSE_DOWN, 9, 0, 0, 0, &blocked, false);
    assert_eq!(d.event, None);
    assert!(d.forward);
    let d = macos_decision(CG_SCROLL_WHEEL, 0, 0, 0, -98304, &blocked, false);
    assert_eq!(d.event, Some(MouseEvent::HScrollLeft));
    assert_eq!(d.scroll_delta, 98304);
    assert!(!d.forward);
    let d = macos_decision(CG_SCROLL_WHEEL, 0, 0, 0, 65536, &blocked, false);
    assert_eq!(d.event, Some(MouseEvent::HScrollRight));
    assert!(d.forward);
    let d = macos_decision(CG_MOUSE_MOVED, 0, 4, -2, 0, &blocked, true);
    assert_eq!(d.gesture_motion, Some(Motion { dx: 4, dy: -2 }));
    assert!(!d.forward);
    assert!(macos_decision(CG_MOUSE_MOVED, 0, 4, -2, 0, &blocked, false).forward);
}

#[test]
fn large_displacements_keep_their_direction() {
    let big: i64 = 1 << 47;
    assert_eq!(classify_direction(big, big - 1, 10), Some(MouseEvent::GestureSwipeRight));
    assert_eq!(classify_direction(big - 1, big, 10), Some(MouseEvent::GestureSwipeDown));
    assert_eq!(classify_direction(i64::MIN, 0, u32::MAX), Some(MouseEvent::GestureSwipeLeft));
    assert_eq!(classify_direction(0, i64::MIN, u32::MAX), Some(MouseEvent::GestureSwipeUp));
    assert_eq!(classify_direction(i64::MAX, i64::MAX, u32::MAX), Some(MouseEvent::GestureSwipeDown));
    assert_eq!(classify_direction(3, 4, 5), Some(MouseEvent::GestureSwipeDown));
    assert_eq!(classify_direction(3, 4, 6), None);
}

#[test]
fn dispatch_follows_the_registration_history() {
    let mut m: CallbackMap<u32> = CallbackMap::new();
    m.register(MouseEventType::GestureSwipeLeft, 1);
    m.register(MouseEventType::GestureClick, 2);
    m.register(MouseEventType::GestureSwipeLeft, 3);
    m.register(MouseEventType::GestureSwipeLeft, 4);
    let handlers: Vec<u32> = m
        .dispatch(MouseEventType::GestureSwipeLeft)
        .iter()
        .map(|&i| *m.handler(i))
        .collect();
    assert_eq!(handlers, vec![1, 3, 4]);
    m.clear();
    m.register(MouseEventType::GestureClick, 5);
    assert!(m.dispatch(MouseEventType::GestureSwipeLeft).is_empty());
    assert_eq!(m.dispatch(MouseEventType::GestureClick), vec![0]);
}

#[test]
fn long_idle_restarts_the_accumulated_motion() {
    let mut d = detector(50, 10);
    assert_eq!(d.accumulate(40, 0, "test", 1), None);
    // Idle for 2^32 + 1 ms, far beyond the 3000 ms timeout: the motion so
    // far is dropped, so 20 more is not enough to swipe.
    assert_eq!(d.accumulate(20, 0, "test", 1 + (1u64 << 32) + 1), None);
    let mut d = detector(50, 10);
    assert_eq!(d.accumulate(40, 0, "test", 1), None);
    assert_eq!(d.accumulate(20, 0, "test", 3001), Some(MouseEvent::GestureSwipeRight));
    let mut d = detector(50, 10);
    assert_eq!(d.accumulate(40, 0, "test", 1), None);
    assert_eq!(d.accumulate(20, 0, "test", 3002), None);
}

#[test]
fn hook_calls_without_action_code_are_forwarded() {
    let xbutton1 = 0x0001_0000u32;
    let blocked = [MouseEventType::XButton1Down];
    let acted = ll_mouse_decision(HC_ACTION, WM_XBUTTONDOWN, xbutton1, 0, &blocked);
    assert_eq!(acted, windows_decision(WM_XBUTTONDOWN, xbutton1, 0, &blocked));
    assert_eq!(acted.event, Some(MouseEvent::XButton1Down));
    assert!(!acted.forward);
    let other = ll_mouse_decision(3, WM_XBUTTONDOWN, xbutton1, 0, &blocked);
    assert_eq!(other.event, None);
    assert!(other.forward);
    let injected = ll_mouse_decision(HC_ACTION, WM_XBUTTONDOWN, xbutton1, LLMHF_INJECTED, &blocked);
    assert_eq!(injected.event, None);
    assert!(injected.forward);
}
