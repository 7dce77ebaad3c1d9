use mouser::config::{
    create_profile, default_mappings, default_profiles, delete_profile, ensure_default_profile,
    get_active_mappings, get_profile_for_app, migrate, profile_button_names, set_mapping, Config,
    Profile, Settings, StrMap, CURRENT_VERSION,
};

#[test]
fn test_default_config() {
    let cfg = Config::default();
    assert_eq!(cfg.version, CURRENT_VERSION);
    assert_eq!(cfg.active_profile, "default");
    assert!(cfg.profiles.contains_key("default"));
    assert_eq!(cfg.settings.dpi, 1000);
    assert_eq!(cfg.settings.language, "en");
}

#[test]
fn test_migration_from_v1() {
    let mut mappings: StrMap<String> = StrMap::new();
    for (k, v) in [
        ("middle", "none"),
        ("gesture", "none"),
        ("xbutton1", "alt_tab"),
        ("xbutton2", "browser_forward"),
        ("hscroll_left", "browser_back"),
        ("hscroll_right", "browser_forward"),
    ] {
        mappings.insert(k.to_string(), v.to_string());
    }
    let mut profiles = StrMap::new();
    profiles.insert("default".to_string(), Profile { label: "Default".into(), apps: vec![], mappings });
    let mut cfg = Config {
        version: 1,
        active_profile: "default".into(),
        profiles,
        settings: Settings::default(),
    };
    migrate(&mut cfg);
    assert_eq!(cfg.version, CURRENT_VERSION);
    let mappings = &cfg.profiles.get("default").unwrap().mappings;
    assert!(mappings.contains_key("gesture_left"));
    assert!(mappings.contains_key("gesture_right"));
    assert!(mappings.contains_key("gesture_up"));
    assert!(mappings.contains_key("gesture_down"));
    assert!(mappings.contains_key("mode_shift"));
}

#[test]
fn test_profile_for_app() {
    let mut cfg = Config::default();
    cfg.profiles.insert(
        "vscode".into(),
        Profile {
            label: "VS Code".into(),
            apps: vec!["Code.exe".into(), "code".into()],
            mappings: default_mappings(),
        },
    );
    assert_eq!(get_profile_for_app(&cfg, "Code.exe"), "vscode");
    assert_eq!(get_profile_for_app(&cfg, "code"), "vscode");
    assert_eq!(get_profile_for_app(&cfg, "chrome.exe"), "default");
}

#[test]
fn test_cannot_delete_default() {
    let mut cfg = Config::default();
    let removed = cfg.profiles.remove("default").is_some();
    assert!(removed);
    ensure_default_profile(&mut cfg);
    assert!(cfg.profiles.contains_key("default"));
}

#[test]
fn test_get_active_mappings() {
    let cfg = Config::default();
    let mappings = get_active_mappings(&cfg);
    assert_eq!(mappings.get("xbutton1").unwrap(), "alt_tab");
    assert_eq!(mappings.get("xbutton2").unwrap(), "browser_forward");
}

#[test]
fn profile_button_names_are_buttons_then_directions() {
    assert_eq!(
        profile_button_names(),
        vec![
            "middle",
            "gesture",
            "xbutton1",
            "xbutton2",
            "hscroll_left",
            "hscroll_right",
            "mode_shift",
            "gesture_left",
            "gesture_right",
            "gesture_up",
            "gesture_down",
        ]
    );
}

#[test]
fn default_mappings_cover_every_button() {
    let m = default_mappings();
    assert_eq!(m.len(), 11);
    for b in profile_button_names() {
        assert!(m.contains_key(b), "missing {b}");
    }
    assert_eq!(m.get("hscroll_left").unwrap(), "browser_back");
    assert_eq!(m.get("gesture_left").unwrap(), "alt_tab");
}

#[test]
fn migration_keeps_existing_mappings() {
    let mut mappings: StrMap<String> = StrMap::new();
    mappings.insert("gesture_left".into(), "copy".into());
    let mut profiles = StrMap::new();
    profiles.insert("default".to_string(), Profile { label: "D".into(), apps: vec![], mappings });
    let mut cfg = Config { version: 2, active_profile: "default".into(), profiles, settings: Settings::default() };
    migrate(&mut cfg);
    let m = &cfg.profiles.get("default").unwrap().mappings;
    assert_eq!(m.get("gesture_left").unwrap(), "copy");
    // Version 2 files only gain the mode-shift mapping.
    assert!(!m.contains_key("gesture_up"));
    assert_eq!(m.get("mode_shift").unwrap(), "none");
}

#[test]
fn set_mapping_changes_only_the_named_profile() {
    let mut cfg = Config::default();
    set_mapping(&mut cfg, "middle", "copy", "default");
    assert_eq!(get_active_mappings(&cfg).get("middle").unwrap(), "copy");
    set_mapping(&mut cfg, "middle", "paste", "nonexistent");
    assert_eq!(get_active_mappings(&cfg).get("middle").unwrap(), "copy");
}

#[test]
fn create_profile_copies_or_uses_defaults() {
    let mut cfg = Config::default();
    set_mapping(&mut cfg, "middle", "copy", "default");
    create_profile(&mut cfg, "work", "Work", Some("default"));
    assert_eq!(cfg.profiles.get("work").unwrap().mappings.get("middle").unwrap(), "copy");
    create_profile(&mut cfg, "play", "Play", Some("missing"));
    assert_eq!(cfg.profiles.get("play").unwrap().mappings.get("middle").unwrap(), "none");
    assert_eq!(cfg.profiles.get("play").unwrap().label, "Play");
    assert!(cfg.profiles.get("play").unwrap().apps.is_empty());
}

#[test]
fn delete_profile_rules() {
    let mut cfg = Config::default();
    assert!(!delete_profile(&mut cfg, "default"));
    assert!(cfg.profiles.contains_key("default"));
    create_profile(&mut cfg, "work", "Work", None);
    cfg.active_profile = "work".into();
    assert!(delete_profile(&mut cfg, "work"));
    assert_eq!(cfg.active_profile, "default");
    assert!(!delete_profile(&mut cfg, "work"));
}

#[test]
fn default_profiles_hold_only_default() {
    let p = default_profiles();
    assert_eq!(p.len(), 1);
    assert_eq!(p.get("default").unwrap().label, "Default (All Apps)");
}

#[test]
fn ensure_default_profile_keeps_existing() {
    let mut cfg = Config::default();
    set_mapping(&mut cfg, "middle", "copy", "default");
    ensure_default_profile(&mut cfg);
    assert_eq!(cfg.profiles.len(), 1);
    assert_eq!(get_active_mappings(&cfg).get("middle").unwrap(), "copy");
}
