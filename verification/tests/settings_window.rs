use mouser::actions::{actions_in_category, categories, CATEGORY_MEDIA};
use mouser::config::{create_profile, Config};
use mouser::settings_window::{profile_choices, status_bar, SettingsApp, Tab};
use mouser::tray::{icon_rgba, profile_label, toggle_label, tooltip};
use mouser::ui::{UiMessage, UiState};

fn config_with_profiles() -> Config {
    let mut cfg = Config::default();
    create_profile(&mut cfg, "work", "", None);
    create_profile(&mut cfg, "alpha", "Alpha Apps", None);
    cfg
}

#[test]
fn window_opens_on_active_profile() {
    let cfg = Config::default();
    let app = SettingsApp::new(&cfg);
    assert_eq!(app.active_tab, Tab::MouseProfiles);
    assert_eq!(app.selected_profile, "default");
    assert_eq!(app.button_action("xbutton1"), "alt_tab");
    assert_eq!(app.button_action("no_such_button"), "none");
    assert_eq!(app.dpi, cfg.settings.dpi);
    assert!(!app.show_new_profile_dialog);
}

#[test]
fn profile_choices_sorted_with_labels() {
    let cfg = config_with_profiles();
    let choices = profile_choices(&cfg);
    let names: Vec<&str> = choices.iter().map(|(n, _)| n.as_str()).collect();
    assert_eq!(names, vec!["alpha", "default", "work"]);
    assert_eq!(choices[0].1, "Alpha Apps");
    assert_eq!(choices[2].1, "work");
}

#[test]
fn selecting_and_deleting_profiles() {
    let cfg = config_with_profiles();
    let mut app = SettingsApp::new(&cfg);
    assert!(!app.can_delete());
    assert!(app.delete_selected(&cfg).is_none());
    match app.select_profile("work", &cfg) {
        UiMessage::SwitchProfile(n) => assert_eq!(n, "work"),
        _ => panic!("expected a profile switch"),
    }
    assert!(app.can_delete());
    match app.delete_selected(&cfg) {
        Some(UiMessage::DeleteProfile(n)) => assert_eq!(n, "work"),
        _ => panic!("expected a deletion"),
    }
    assert_eq!(app.selected_profile, "default");
}

#[test]
fn new_profile_dialog_trims_and_copies_selected() {
    let cfg = config_with_profiles();
    let mut app = SettingsApp::new(&cfg);
    app.open_new_profile_dialog();
    assert!(app.show_new_profile_dialog);
    app.new_profile_name = "   ".to_string();
    assert!(app.confirm_new_profile(&cfg).is_none());
    assert!(!app.show_new_profile_dialog);
    app.open_new_profile_dialog();
    app.new_profile_name = "  games ".to_string();
    app.new_profile_label = " Games ".to_string();
    match app.confirm_new_profile(&cfg) {
        Some(UiMessage::CreateProfile { name, label, copy_from }) => {
            assert_eq!(name, "games");
            assert_eq!(label, "Games");
            assert_eq!(copy_from.as_deref(), Some("default"));
        }
        _ => panic!("expected a creation"),
    }
    assert_eq!(app.selected_profile, "games");
    app.open_new_profile_dialog();
    app.cancel_new_profile();
    assert!(!app.show_new_profile_dialog);
}

#[test]
fn edits_send_messages_only_on_change() {
    let cfg = Config::default();
    let mut app = SettingsApp::new(&cfg);
    assert!(app.set_button_action("xbutton1", "alt_tab").is_none());
    match app.set_button_action("xbutton1", "copy") {
        Some(UiMessage::SetMapping { profile, button, action_id }) => {
            assert_eq!((profile.as_str(), button.as_str(), action_id.as_str()), ("default", "xbutton1", "copy"));
        }
        _ => panic!("expected a mapping"),
    }
    assert_eq!(app.button_action("xbutton1"), "copy");
    let dpi = app.dpi;
    assert!(app.set_dpi(dpi).is_none());
    assert!(matches!(app.set_dpi(1600), Some(UiMessage::SetDpi(1600))));
    assert!(app.set_smart_shift("ratchet").is_none());
    assert!(matches!(app.set_smart_shift("freespin"), Some(UiMessage::SetSmartShift(ref m)) if m == "freespin"));
    assert!(matches!(app.set_invert_hscroll(true), Some(UiMessage::SetInvertHScroll(true))));
    assert!(app.set_invert_hscroll(true).is_none());
    assert!(matches!(app.set_invert_vscroll(true), Some(UiMessage::SetInvertVScroll(true))));
    assert!(app.set_hscroll_threshold_milli(1001).is_none());
    assert_eq!(app.hscroll_threshold_milli, 1001);
    assert!(matches!(app.set_hscroll_threshold_milli(1500), Some(UiMessage::SetHScrollThreshold(1500))));
    assert!(matches!(app.set_language("de"), Some(UiMessage::SetLanguage(ref l)) if l == "de"));
    assert!(app.set_language("de").is_none());
    assert!(matches!(app.set_start_at_login(true), Some(UiMessage::SetStartAtLogin(true))));
    assert!(matches!(app.set_start_minimized(true), Some(UiMessage::SetStartMinimized(true))));
    assert!(matches!(app.set_debug_mode(true), Some(UiMessage::SetDebugMode(true))));
}

#[test]
fn status_bar_texts() {
    let mut s = UiState::default();
    assert_eq!(status_bar(&s), vec!["No device", "DPI: 1000", "Enabled"]);
    s.battery_pct = Some(85);
    s.enabled = false;
    s.device_name = "MX Master 3S".to_string();
    assert_eq!(status_bar(&s), vec!["MX Master 3S", "Battery: 85%", "DPI: 1000", "Disabled"]);
}

#[test]
fn tray_texts() {
    let mut s = UiState::default();
    assert_eq!(toggle_label(true), "Disable Remapping");
    assert_eq!(toggle_label(false), "Enable Remapping");
    assert_eq!(profile_label(&s), "Profile: default");
    assert_eq!(tooltip(&s), "Mouser \u{2014} No device");
    s.battery_pct = Some(40);
    assert_eq!(tooltip(&s), "Mouser \u{2014} No device \u{2014} 40%");
}

#[test]
fn tray_icon_is_a_disc() {
    let rgba = icon_rgba();
    assert_eq!(rgba.len(), 16 * 16 * 4);
    let px = |x: usize, y: usize| &rgba[(y * 16 + x) * 4..(y * 16 + x) * 4 + 4];
    assert_eq!(px(8, 8), &[220, 220, 220, 255]);
    assert_eq!(px(0, 0), &[0, 0, 0, 0]);
    assert_eq!(px(15, 8), &[220, 220, 220, 255]);
    assert_eq!(px(8, 0), &[0, 0, 0, 0]);
}

#[test]
fn actions_grouped_by_category() {
    assert_eq!(categories(), vec!["Navigation", "Browser", "Editing", "Media", "Other"]);
    let media: Vec<&str> = actions_in_category(CATEGORY_MEDIA).iter().map(|a| a.id).collect();
    assert_eq!(media, vec!["volume_up", "volume_down", "volume_mute", "play_pause", "next_track", "prev_track"]);
    assert_eq!(actions_in_category("Other").len(), 1);
    assert!(actions_in_category("Nope").is_empty());
}
