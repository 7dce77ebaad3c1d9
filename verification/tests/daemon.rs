use mouser::config::Config;
use mouser::daemon::handle_ui_message;
use mouser::engine::{Engine, EngineConfig};
use mouser::ui::{UiMessage, UiState};

fn engine() -> (Engine, UiState) {
    let cfg = Config::default();
    let state = UiState::from_config(&cfg);
    (Engine::new(cfg, &EngineConfig::default()), state)
}

#[test]
fn set_dpi_updates_config_state_and_device() {
    let (mut eng, mut state) = engine();
    let r = handle_ui_message(UiMessage::SetDpi(1600), &mut eng, &mut state);
    assert_eq!(eng.config.settings.dpi, 1600);
    assert_eq!(state.dpi, 1600);
    assert_eq!(r.send_dpi, Some(1600));
    assert!(r.save_config);
    assert!(!r.reload_mappings);
    assert!(!r.quit);
}

#[test]
fn set_mapping_changes_profile_and_reloads() {
    let (mut eng, mut state) = engine();
    let r = handle_ui_message(
        UiMessage::SetMapping {
            profile: "default".to_string(),
            button: "xbutton1".to_string(),
            action_id: "copy".to_string(),
        },
        &mut eng,
        &mut state,
    );
    let p = eng.config.profiles.get("default").unwrap();
    assert_eq!(p.mappings.get("xbutton1").map(|s| s.as_str()), Some("copy"));
    assert!(r.save_config);
    assert!(r.reload_mappings);
}

#[test]
fn switch_profile_and_smart_shift() {
    let (mut eng, mut state) = engine();
    let r = handle_ui_message(UiMessage::SwitchProfile("work".to_string()), &mut eng, &mut state);
    assert_eq!(eng.config.active_profile, "work");
    assert_eq!(state.current_profile, "work");
    assert!(r.reload_mappings && r.save_config);
    let r = handle_ui_message(UiMessage::SetSmartShift("freespin".to_string()), &mut eng, &mut state);
    assert_eq!(r.send_smart_shift.as_deref(), Some("freespin"));
    assert_eq!(state.smart_shift_mode, "freespin");
    assert_eq!(eng.config.settings.smart_shift_mode, "freespin");
}

#[test]
fn profiles_created_and_deleted() {
    let (mut eng, mut state) = engine();
    let r = handle_ui_message(
        UiMessage::CreateProfile { name: "game".to_string(), label: "Game".to_string(), copy_from: None },
        &mut eng,
        &mut state,
    );
    assert!(r.save_config && !r.reload_mappings);
    assert!(eng.config.profiles.contains_key("game"));
    let r = handle_ui_message(UiMessage::DeleteProfile("default".to_string()), &mut eng, &mut state);
    assert!(!r.save_config);
    assert!(eng.config.profiles.contains_key("default"));
    let r = handle_ui_message(UiMessage::DeleteProfile("game".to_string()), &mut eng, &mut state);
    assert!(r.save_config && r.reload_mappings);
    assert!(!eng.config.profiles.contains_key("game"));
}

#[test]
fn settings_messages_login_debug_quit() {
    let (mut eng, mut state) = engine();
    let r = handle_ui_message(UiMessage::SetStartAtLogin(true), &mut eng, &mut state);
    assert_eq!(r.login_item, Some(true));
    assert!(eng.config.settings.start_at_login);
    let r = handle_ui_message(UiMessage::SetHScrollThreshold(2500), &mut eng, &mut state);
    assert_eq!(eng.config.settings.hscroll_threshold_milli, 2500);
    assert!(r.reload_mappings);
    handle_ui_message(UiMessage::SetDebugMode(true), &mut eng, &mut state);
    assert!(eng.debug_enabled && eng.config.settings.debug_mode);
    handle_ui_message(UiMessage::SetLanguage("fr".to_string()), &mut eng, &mut state);
    assert_eq!(eng.config.settings.language, "fr");
    let r = handle_ui_message(UiMessage::ShowSettings, &mut eng, &mut state);
    assert!(r.reload_mappings && !r.save_config);
    let r = handle_ui_message(UiMessage::Quit, &mut eng, &mut state);
    assert!(r.quit && !r.save_config);
}
