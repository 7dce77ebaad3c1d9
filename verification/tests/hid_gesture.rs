use mouser::hid_gesture::{
    choose_gesture_candidates, decode_s16, default_gesture_cids, format_key_flags, hidpp_error_name,
    parse_report, ControlInfo, SmartShiftMode, LONG_REPORT_ID, SMART_SHIFT_FREESPIN,
    SMART_SHIFT_RATCHET, ControlDiscovery, DivertOutcome, DivertSequence, FeatureState,
    divert_failed, build_request, connect_order, ConnectStrategy, HidBackend, classify_read, ReadOutcome, RetryNotice, DIVERT_FLAGS, DIVERT_RAWXY_FLAGS, GESTURE_CID_PRIMARY, GESTURE_CID_VIRTUAL,
};

#[test]
fn parse_short_report_with_id() {
    let raw = [0x10u8, 0x01, 0x05, 0x4A, 0x11, 0x22, 0x33];
    let msg = parse_report(&raw).expect("should parse");
    assert_eq!(msg.dev_idx, 0x01);
    assert_eq!(msg.feat_idx, 0x05);
    assert_eq!(msg.func, 0x04);
    assert_eq!(msg.sw, 0x0A);
    assert_eq!(msg.params, vec![0x11, 0x22, 0x33]);
}

#[test]
fn parse_short_report_without_id() {
    let raw = [0x01u8, 0x05, 0x4A, 0x11, 0x22, 0x33, 0x44];
    let msg = parse_report(&raw).expect("should parse");
    assert_eq!(msg.dev_idx, 0x01);
    assert_eq!(msg.feat_idx, 0x05);
    assert_eq!(msg.func, 0x04);
    assert_eq!(msg.sw, 0x0A);
    assert_eq!(msg.params[0], 0x11);
}

#[test]
fn parse_long_report_with_id() {
    let mut raw = [0u8; 20];
    raw[0] = LONG_REPORT_ID;
    raw[1] = 0xFF;
    raw[2] = 0x08;
    raw[3] = 0x1A;
    raw[4] = 0xDE;
    raw[5] = 0xAD;
    let msg = parse_report(&raw).expect("should parse");
    assert_eq!(msg.dev_idx, 0xFF);
    assert_eq!(msg.feat_idx, 0x08);
    assert_eq!(msg.func, 0x01);
    assert_eq!(msg.sw, 0x0A);
    assert_eq!(msg.params[0], 0xDE);
    assert_eq!(msg.params[1], 0xAD);
}

#[test]
fn parse_too_short_returns_none() {
    assert!(parse_report(&[]).is_none());
    assert!(parse_report(&[0x10, 0x01, 0x00]).is_none());
}

#[test]
fn decode_positive_s16() {
    assert_eq!(decode_s16(0x00, 0x05), 5i16);
    assert_eq!(decode_s16(0x01, 0x00), 256i16);
}

#[test]
fn decode_negative_s16() {
    assert_eq!(decode_s16(0xFF, 0xFF), -1i16);
    assert_eq!(decode_s16(0xFF, 0x00), -256i16);
}

#[test]
fn decode_zero_s16() {
    assert_eq!(decode_s16(0x00, 0x00), 0i16);
}

#[test]
fn format_key_flags_empty() {
    assert_eq!(format_key_flags(0), "none");
}

#[test]
fn format_key_flags_raw_xy() {
    let s = format_key_flags(0x0100);
    assert!(s.contains("raw_xy"), "got: {s}");
}

#[test]
fn format_key_flags_multiple() {
    let s = format_key_flags(0x0021);
    assert!(s.contains("mse"), "got: {s}");
    assert!(s.contains("divertable"), "got: {s}");
}

#[test]
fn choose_defaults_when_no_controls() {
    let result = choose_gesture_candidates(&[]);
    assert_eq!(result, default_gesture_cids());
}

#[test]
fn choose_prefers_known_cids() {
    let controls = vec![
        ControlInfo {
            index: 0,
            cid: 0x00C3,
            task: 0,
            key_flags: 0x01A0,
            pos: 0,
            group: 0,
            gmask: 0,
            mapping_flags: 0,
        },
        ControlInfo {
            index: 1,
            cid: 0x00D7,
            task: 0,
            key_flags: 0x01A0,
            pos: 0,
            group: 0,
            gmask: 0,
            mapping_flags: 0,
        },
    ];
    let result = choose_gesture_candidates(&controls);
    assert_eq!(result[0], 0x00C3);
    assert_eq!(result[1], 0x00D7);
}

#[test]
fn smart_shift_mode_from_str() {
    assert_eq!(SmartShiftMode::from_str("ratchet"), Some(SmartShiftMode::Ratchet));
    assert_eq!(SmartShiftMode::from_str("FREESPIN"), Some(SmartShiftMode::FreeSpin));
    assert_eq!(SmartShiftMode::from_str("bad"), None);
}

#[test]
fn smart_shift_mode_as_byte() {
    assert_eq!(SmartShiftMode::Ratchet.as_byte(), SMART_SHIFT_RATCHET);
    assert_eq!(SmartShiftMode::FreeSpin.as_byte(), SMART_SHIFT_FREESPIN);
}

#[test]
fn error_names_known() {
    assert_eq!(hidpp_error_name(0x01), "UNKNOWN");
    assert_eq!(hidpp_error_name(0x06), "INVALID_FEATURE_INDEX");
    assert_eq!(hidpp_error_name(0x09), "UNSUPPORTED");
}

#[test]
fn error_names_unknown() {
    assert_eq!(hidpp_error_name(0xFF), "?");
}

#[test]
fn discovery_caps_count_and_reads_controls() {
    let mut d = ControlDiscovery::new(40);
    assert_eq!(d.count, 32);
    assert_eq!(d.next_index(), Some(0));
    let key = [0x00u8, 0xC3, 0x00, 0x38, 0x30, 0x00, 0x00, 0x00, 0x03];
    let mapping = [0x00u8, 0xC3, 0x11, 0x00, 0x00, 0x02];
    d.on_control_read(Some(&key), Some(&mapping));
    assert_eq!(d.controls.len(), 1);
    let c = d.controls[0];
    assert_eq!(c.index, 0);
    assert_eq!(c.cid, 0x00C3);
    assert_eq!(c.task, 0x0038);
    assert_eq!(c.key_flags, 0x0330);
    assert_eq!(c.mapping_flags, 0x0211);
    // A short answer is skipped but resets the failure count.
    d.on_control_read(Some(&[1, 2, 3]), None);
    assert_eq!(d.controls.len(), 1);
    assert_eq!(d.next_index(), Some(2));
    // An answer without reporting flags gives zero flags.
    d.on_control_read(Some(&key), None);
    assert_eq!(d.controls[1].mapping_flags, 0);
    assert_eq!(d.controls[1].index, 2);
}

#[test]
fn discovery_stops_after_three_failures() {
    let mut d = ControlDiscovery::new(10);
    d.on_control_read(None, None);
    d.on_control_read(None, None);
    assert_eq!(d.next_index(), Some(2));
    d.on_control_read(None, None);
    assert_eq!(d.next_index(), None);
    assert!(d.controls.is_empty());
    let mut e = ControlDiscovery::new(1);
    e.on_control_read(None, None);
    assert_eq!(e.next_index(), None);
}

#[test]
fn divert_tries_rawxy_then_plain_then_next() {
    let mut s = DivertSequence::new(vec![GESTURE_CID_PRIMARY, GESTURE_CID_VIRTUAL]);
    assert_eq!(s.next_request(), Some((GESTURE_CID_PRIMARY, DIVERT_RAWXY_FLAGS)));
    assert_eq!(s.on_result(false), None);
    assert_eq!(s.next_request(), Some((GESTURE_CID_PRIMARY, DIVERT_FLAGS)));
    assert_eq!(s.on_result(false), None);
    assert_eq!(s.next_request(), Some((GESTURE_CID_VIRTUAL, DIVERT_RAWXY_FLAGS)));
    assert_eq!(s.on_result(false), None);
    assert_eq!(s.next_request(), Some((GESTURE_CID_VIRTUAL, DIVERT_FLAGS)));
    assert_eq!(
        s.on_result(true),
        Some(DivertOutcome { gesture_cid: GESTURE_CID_VIRTUAL, rawxy_enabled: false, diverted: true })
    );
    let mut t = DivertSequence::new(vec![0x00D7]);
    assert_eq!(
        t.on_result(true),
        Some(DivertOutcome { gesture_cid: 0x00D7, rawxy_enabled: true, diverted: true })
    );
    let mut u = DivertSequence::new(vec![0x00D7]);
    u.on_result(false);
    u.on_result(false);
    assert_eq!(u.next_request(), None);
    assert_eq!(divert_failed(), DivertOutcome { gesture_cid: 0x00C3, rawxy_enabled: false, diverted: false });
}

#[test]
fn feature_state_reset_and_battery_preference() {
    let mut f = FeatureState::new();
    f.feat_idx = Some(5);
    f.set_battery(Some(7), Some(8));
    assert_eq!(f.battery_idx, Some(7));
    assert!(f.battery_is_unified);
    f.set_battery(None, Some(8));
    assert_eq!(f.battery_idx, Some(8));
    assert!(!f.battery_is_unified);
    f.apply_divert(DivertOutcome { gesture_cid: 0x00D7, rawxy_enabled: true, diverted: true });
    assert_eq!(f.gesture_cid, 0x00D7);
    assert!(f.rawxy_enabled);
    f.reset();
    assert_eq!(f.feat_idx, None);
    assert_eq!(f.battery_idx, None);
    assert_eq!(f.gesture_cid, 0x00C3);
    assert_eq!(f.gesture_candidates, vec![0x00C3, 0x00D7]);
    assert!(!f.rawxy_enabled);
}

#[test]
fn read_outcomes_and_retry_notice() {
    assert_eq!(classify_read(None), ReadOutcome::Idle);
    assert_eq!(classify_read(Some(0)), ReadOutcome::Disconnected);
    assert_eq!(classify_read(Some(7)), ReadOutcome::Report);
    let mut n = RetryNotice::new();
    assert!(n.on_attempt(false));
    assert!(!n.on_attempt(false));
    assert!(!n.on_attempt(true));
    assert!(n.on_attempt(false));
}

#[test]
fn request_frame_parses_back() {
    let frame = build_request(true, 0xFF, 0x05, 0x13, &[0xAB, 0xCD]);
    assert_eq!(frame.len(), 20);
    let m = parse_report(&frame).unwrap();
    assert_eq!((m.dev_idx, m.feat_idx, m.func, m.sw), (0xFF, 0x05, 0x03, 0x0A));
    assert_eq!(&m.params[..3], &[0xAB, 0xCD, 0x00]);
    assert_eq!(m.params.len(), 16);
    let short = build_request(false, 1, 2, 3, &[1, 2, 3, 4, 5]);
    assert_eq!(short, vec![0x10, 1, 2, 0x3A, 1, 2, 3]);
}

#[test]
fn connection_strategies_by_backend() {
    assert_eq!(connect_order(HidBackend::Auto, false), vec![ConnectStrategy::Hidapi]);
    assert_eq!(connect_order(HidBackend::IOKit, false), vec![ConnectStrategy::Hidapi]);
    assert_eq!(
        connect_order(HidBackend::Auto, true),
        vec![ConnectStrategy::Hybrid, ConnectStrategy::Native, ConnectStrategy::Hidapi]
    );
    assert_eq!(connect_order(HidBackend::IOKit, true), vec![ConnectStrategy::Native]);
    assert_eq!(connect_order(HidBackend::Hidapi, true), vec![ConnectStrategy::Hidapi]);
}
