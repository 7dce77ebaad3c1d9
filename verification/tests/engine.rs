use mouser::config::{get_active_mappings, get_profile_for_app, Config, Profile, Settings, StrMap};
use mouser::engine::{
    button_to_event_types, hook_bindings, hscroll_cooldown_ms, hscroll_threshold_milli,
    mapping_summary, scroll_step_milli, volume_actions, Binding, Engine, EngineConfig, HScrollState,
    HSCROLL_ACTION_COOLDOWN_MS, HSCROLL_VOLUME_COOLDOWN_MS,
};
use mouser::hid_gesture::HidBackend;
use mouser::mouse_hook::MouseEventType;

fn mappings(pairs: &[(&str, &str)]) -> StrMap<String> {
    let mut m = StrMap::new();
    for (k, v) in pairs {
        m.insert(k.to_string(), v.to_string());
    }
    m
}

fn default_mappings() -> StrMap<String> {
    mappings(&[
        ("middle", "none"),
        ("gesture", "none"),
        ("gesture_left", "none"),
        ("gesture_right", "none"),
        ("gesture_up", "none"),
        ("gesture_down", "none"),
        ("mode_shift", "none"),
        ("xbutton1", "alt_tab"),
        ("xbutton2", "browser_forward"),
        ("hscroll_left", "browser_back"),
        ("hscroll_right", "browser_forward"),
    ])
}

fn vscode_mappings() -> StrMap<String> {
    let mut m = default_mappings();
    m.insert("xbutton1".into(), "copy".into());
    m.insert("xbutton2".into(), "paste".into());
    m.insert("hscroll_left".into(), "volume_down".into());
    m.insert("hscroll_right".into(), "volume_up".into());
    m
}

fn make_multi_profile_config() -> Config {
    let mut profiles = StrMap::new();
    profiles.insert(
        "default".into(),
        Profile { label: "Default".into(), apps: vec![], mappings: default_mappings() },
    );
    profiles.insert(
        "vscode".into(),
        Profile {
            label: "VS Code".into(),
            apps: vec!["Code.exe".into(), "code".into()],
            mappings: vscode_mappings(),
        },
    );
    Config { version: 6, active_profile: "default".into(), profiles, settings: Settings::default() }
}

#[test]
fn unknown_app_falls_back_to_default() {
    let cfg = make_multi_profile_config();
    assert_eq!(get_profile_for_app(&cfg, "notepad.exe"), "default");
}

#[test]
fn known_app_returns_its_profile() {
    let cfg = make_multi_profile_config();
    assert_eq!(get_profile_for_app(&cfg, "Code.exe"), "vscode");
    assert_eq!(get_profile_for_app(&cfg, "code"), "vscode");
}

#[test]
fn profile_lookup_is_case_insensitive() {
    let cfg = make_multi_profile_config();
    assert_eq!(get_profile_for_app(&cfg, "CODE.EXE"), "vscode");
    assert_eq!(get_profile_for_app(&cfg, "CODE"), "vscode");
}

#[test]
fn switch_profile_activates_correct_mappings() {
    let mut cfg = make_multi_profile_config();
    cfg.active_profile = "vscode".into();
    let m = get_active_mappings(&cfg);
    assert_eq!(m.get("xbutton1").unwrap(), "copy");
    assert_eq!(m.get("hscroll_left").unwrap(), "volume_down");

    cfg.active_profile = "default".into();
    let m = get_active_mappings(&cfg);
    assert_eq!(m.get("xbutton1").unwrap(), "alt_tab");
    assert_eq!(m.get("hscroll_left").unwrap(), "browser_back");
}

#[test]
fn missing_active_profile_falls_back_to_default() {
    let mut cfg = make_multi_profile_config();
    cfg.active_profile = "nonexistent_profile".into();
    let m = get_active_mappings(&cfg);
    assert_eq!(m.get("xbutton1").unwrap(), "alt_tab");
}

#[test]
fn profile_change_only_when_app_not_already_mapped() {
    let cfg = make_multi_profile_config();
    let profile = get_profile_for_app(&cfg, "Code.exe");
    assert_eq!(profile, "vscode");
    let profile2 = get_profile_for_app(&cfg, "firefox.exe");
    assert_eq!(profile2, "default");
}

#[test]
fn hscroll_fires_when_threshold_reached() {
    let threshold: u64 = 1000;
    let mut state = HScrollState::new();
    state.accum_milli += 1000;
    assert!(state.accum_milli >= threshold);
    assert!(state.cooldown_elapsed(HSCROLL_ACTION_COOLDOWN_MS, 0));
}

#[test]
fn hscroll_does_not_fire_below_threshold() {
    let threshold: u64 = 3000;
    let mut state = HScrollState::new();
    state.accum_milli += 1000;
    assert!(state.accum_milli < threshold);
    state.accum_milli += 1000;
    assert!(state.accum_milli < threshold);
}

#[test]
fn hscroll_fires_after_multi_step_accumulation() {
    let threshold: u64 = 3000;
    let mut state = HScrollState::new();
    for _ in 0..3 {
        state.accum_milli += 1000;
    }
    assert!(state.accum_milli >= threshold);
}

#[test]
fn hscroll_cooldown_blocks_immediate_repeat() {
    let now: u64 = 50_000;
    let mut state = HScrollState::new();
    state.last_fire_at = Some(now);
    assert!(!state.cooldown_elapsed(HSCROLL_ACTION_COOLDOWN_MS, now));
}

#[test]
fn hscroll_cooldown_allows_after_delay() {
    let now: u64 = 50_000;
    let mut state = HScrollState::new();
    state.last_fire_at = Some(now - 10_000);
    assert!(state.cooldown_elapsed(HSCROLL_ACTION_COOLDOWN_MS, now));
}

#[test]
fn hscroll_never_fired_cooldown_elapsed() {
    let state = HScrollState::new();
    assert!(state.cooldown_elapsed(HSCROLL_ACTION_COOLDOWN_MS, 0));
}

#[test]
fn hscroll_volume_cooldown_shorter_than_normal() {
    assert!(HSCROLL_VOLUME_COOLDOWN_MS < HSCROLL_ACTION_COOLDOWN_MS);
}

#[test]
fn hscroll_step_capped_to_one() {
    let step = scroll_step_milli(Some(999_000));
    assert_eq!(step, 1000);
}

#[test]
fn hscroll_sub_one_step_preserved() {
    let step = scroll_step_milli(Some(330));
    assert_eq!(step, 330);
}

#[test]
fn middle_has_down_and_up() {
    let evts = button_to_event_types("middle");
    assert!(evts.iter().any(|&(e, up)| e == MouseEventType::MiddleDown && !up));
    assert!(evts.iter().any(|&(e, up)| e == MouseEventType::MiddleUp && up));
}

#[test]
fn gesture_covers_click_and_all_four_swipes() {
    let types: Vec<MouseEventType> =
        button_to_event_types("gesture").iter().map(|&(e, _)| e).collect();
    assert!(types.contains(&MouseEventType::GestureClick));
    assert!(types.contains(&MouseEventType::GestureSwipeLeft));
    assert!(types.contains(&MouseEventType::GestureSwipeRight));
    assert!(types.contains(&MouseEventType::GestureSwipeUp));
    assert!(types.contains(&MouseEventType::GestureSwipeDown));
}

#[test]
fn gesture_left_maps_to_single_swipe_left() {
    let evts = button_to_event_types("gesture_left");
    assert_eq!(evts.len(), 1);
    assert_eq!(evts[0], (MouseEventType::GestureSwipeLeft, false));
}

#[test]
fn hscroll_left_maps_to_single_event() {
    let evts = button_to_event_types("hscroll_left");
    assert_eq!(evts.len(), 1);
    assert_eq!(evts[0], (MouseEventType::HScrollLeft, false));
}

#[test]
fn mode_shift_has_down_and_up() {
    let evts = button_to_event_types("mode_shift");
    assert!(evts.iter().any(|&(e, up)| e == MouseEventType::ModeShiftDown && !up));
    assert!(evts.iter().any(|&(e, up)| e == MouseEventType::ModeShiftUp && up));
}

#[test]
fn unknown_button_returns_empty_slice() {
    assert!(button_to_event_types("not_a_real_button").is_empty());
}

#[test]
fn volume_up_and_down_in_volume_actions() {
    assert!(volume_actions().contains(&"volume_up"));
    assert!(volume_actions().contains(&"volume_down"));
}

#[test]
fn non_volume_not_in_volume_actions() {
    assert!(!volume_actions().contains(&"alt_tab"));
    assert!(!volume_actions().contains(&"browser_back"));
    assert!(!volume_actions().contains(&"copy"));
}

#[test]
fn cooldown_depends_on_action() {
    assert_eq!(hscroll_cooldown_ms("volume_up"), 60);
    assert_eq!(hscroll_cooldown_ms("browser_back"), 350);
}

#[test]
fn threshold_has_a_floor() {
    assert_eq!(hscroll_threshold_milli(0), 100);
    assert_eq!(hscroll_threshold_milli(2500), 2500);
}

#[test]
fn bindings_block_all_and_handle_presses() {
    let m = default_mappings();
    let b = hook_bindings(&m, 1000);
    // xbutton1, xbutton2: down+up each; hscroll left/right: one each.
    assert_eq!(b.len(), 6);
    let x1: Vec<_> = b.iter().filter(|x| x.button == "xbutton1").collect();
    assert_eq!(x1.len(), 2);
    assert!(x1[0].handled && x1[0].event == MouseEventType::XButton1Down);
    assert!(!x1[1].handled && x1[1].event == MouseEventType::XButton1Up);
    let hs: Vec<_> = b.iter().filter(|x| x.hscroll).collect();
    assert_eq!(hs.len(), 2);
    assert!(hs.iter().all(|x| x.threshold_milli == 1000 && x.handled));
    assert!(b.iter().all(|x| x.action != "none"));
}

#[test]
fn mapping_summary_lists_gesture_and_side_buttons() {
    let m = vscode_mappings();
    assert_eq!(
        mapping_summary(&m),
        "Hook mappings refreshed: gesture=none, gesture_left=none, gesture_right=none, \
         gesture_up=none, gesture_down=none, xbutton1=copy, xbutton2=paste"
    );
    let empty: StrMap<String> = StrMap::new();
    assert!(mapping_summary(&empty).ends_with("xbutton2=none"));
}

#[test]
fn engine_switches_profile_once_per_app() {
    let cfg = make_multi_profile_config();
    let mut e = Engine::new(cfg, &EngineConfig::default());
    assert_eq!(e.on_app_change("Code.exe").as_deref(), Some("vscode"));
    assert_eq!(e.current_profile, "vscode");
    assert_eq!(e.config.active_profile, "vscode");
    assert_eq!(e.on_app_change("code"), None);
    assert_eq!(e.on_app_change("firefox.exe").as_deref(), Some("default"));
}

#[test]
fn disabled_engine_does_not_switch() {
    let cfg = make_multi_profile_config();
    let mut e = Engine::new(cfg, &EngineConfig { hid_backend: HidBackend::Hidapi, debug: true });
    assert!(e.debug_enabled);
    e.set_enabled(false);
    assert_eq!(e.on_app_change("Code.exe"), None);
    assert_eq!(e.current_profile, "default");
}

#[test]
fn engine_hscroll_fires_then_cools_down() {
    let cfg = make_multi_profile_config();
    let mut e = Engine::new(cfg, &EngineConfig::default());
    assert!(!e.on_hscroll(true, "browser_back", Some(400), 1000, 0));
    assert!(!e.on_hscroll(true, "browser_back", Some(400), 1000, 10));
    assert!(e.on_hscroll(true, "browser_back", Some(400), 1000, 20));
    assert_eq!(e.hscroll_left.accum_milli, 0);
    assert!(!e.on_hscroll(true, "browser_back", None, 1000, 100));
    assert!(e.on_hscroll(true, "browser_back", None, 1000, 400));
    // Right direction is independent.
    assert!(e.on_hscroll(false, "volume_up", None, 1000, 401));
}

#[test]
fn engine_bindings_follow_active_profile() {
    let mut cfg = make_multi_profile_config();
    cfg.active_profile = "vscode".into();
    let e = Engine::new(cfg, &EngineConfig::default());
    let b = e.bindings();
    assert!(b.iter().any(|x| x.button == "xbutton1" && x.action == "copy"));
}

#[test]
fn engine_settings_changes() {
    let cfg = make_multi_profile_config();
    let mut e = Engine::new(cfg, &EngineConfig::default());
    assert_eq!(e.set_dpi(70_000), 70_000u32 as u16);
    assert_eq!(e.config.settings.dpi, 70_000);
    e.set_smart_shift("freespin");
    assert_eq!(e.config.settings.smart_shift_mode, "freespin");
    e.set_debug_enabled(true);
    assert!(e.debug_enabled && e.config.settings.debug_mode);
    let mut fresh = make_multi_profile_config();
    fresh.active_profile = "vscode".into();
    e.reload(fresh);
    assert_eq!(e.current_profile, "vscode");
}

fn binding(event: MouseEventType, action: &str, hscroll: bool) -> Binding {
    Binding {
        event,
        button: "b".to_string(),
        action: action.to_string(),
        handled: true,
        hscroll,
        threshold_milli: 1000,
    }
}

#[test]
fn bound_events_run_actions_while_enabled() {
    let mut e = Engine::new(Config::default(), &EngineConfig::default());
    let click = binding(MouseEventType::XButton1Down, "copy", false);
    assert_eq!(e.on_bound_event(&click, None, 0).as_deref(), Some("copy"));
    let scroll = binding(MouseEventType::HScrollLeft, "browser_back", true);
    assert_eq!(e.on_bound_event(&scroll, Some(1), 1000).as_deref(), Some("browser_back"));
    // Within the cooldown the accumulator is cleared and nothing fires.
    assert_eq!(e.on_bound_event(&scroll, Some(1), 1100), None);
    // The other direction has its own accumulator.
    let right = binding(MouseEventType::HScrollRight, "browser_forward", true);
    assert_eq!(e.on_bound_event(&right, Some(1), 1100).as_deref(), Some("browser_forward"));
    e.set_enabled(false);
    assert_eq!(e.on_bound_event(&click, None, 5000), None);
}
