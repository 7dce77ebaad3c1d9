use mouser::actions::{
    actions, custom_action_label, get_action, is_valid_key_name, parse_custom_combo,
    valid_custom_key_names, CATEGORY_BROWSER, CATEGORY_EDITING, CATEGORY_MEDIA,
    CATEGORY_NAVIGATION, CATEGORY_OTHER,
};

#[test]
fn actions_are_non_empty() {
    assert!(!actions().is_empty());
}

#[test]
fn all_actions_have_valid_categories() {
    let valid = [
        CATEGORY_NAVIGATION,
        CATEGORY_BROWSER,
        CATEGORY_EDITING,
        CATEGORY_MEDIA,
        CATEGORY_OTHER,
    ];
    for action in actions() {
        assert!(
            valid.contains(&action.category),
            "Action '{}' has unknown category '{}'",
            action.id,
            action.category,
        );
    }
}

#[test]
fn action_ids_are_unique() {
    let mut ids: Vec<&str> = actions().iter().map(|a| a.id).collect();
    ids.sort();
    let before = ids.len();
    ids.dedup();
    assert_eq!(before, ids.len(), "Duplicate action ids found");
}

#[test]
fn get_action_finds_known_ids() {
    assert_eq!(get_action("copy").unwrap().label, "Copy");
    assert_eq!(get_action("none").unwrap().category, CATEGORY_OTHER);
}

#[test]
fn get_action_returns_none_for_unknown() {
    assert!(get_action("does_not_exist").is_none());
    assert!(get_action("custom:ctrl+c").is_none());
}

#[test]
fn valid_key_names_is_sorted() {
    let names = valid_custom_key_names();
    let mut sorted = names.clone();
    sorted.sort();
    assert_eq!(names, sorted, "VALID_KEY_NAMES must be sorted for binary_search");
}

#[test]
fn common_key_names_are_valid() {
    for name in &[
        "ctrl", "shift", "alt", "super", "a", "z", "f1", "f12", "enter", "space", "tab", "esc",
        "delete", "backspace", "left", "right", "up", "down", "home", "end", "pageup",
        "pagedown", "volumeup", "volumedown", "mute", "playpause", "nexttrack", "prevtrack",
    ] {
        assert!(is_valid_key_name(name), "'{}' should be valid", name);
    }
}

#[test]
fn invalid_key_names_rejected() {
    assert!(!is_valid_key_name("Ctrl"));
    assert!(!is_valid_key_name("foo"));
    assert!(!is_valid_key_name(""));
}

#[test]
fn label_for_custom_action() {
    assert_eq!(custom_action_label("custom:ctrl+shift+a"), "Ctrl + Shift + A");
}

#[test]
fn label_for_single_key() {
    assert_eq!(custom_action_label("custom:f5"), "F5");
}

#[test]
fn actions_label_passthrough_for_non_custom() {
    assert_eq!(custom_action_label("copy"), "copy");
}

#[test]
fn parse_valid_combo() {
    let keys = parse_custom_combo("custom:ctrl+shift+a").unwrap();
    assert_eq!(keys, vec!["ctrl", "shift", "a"]);
}

#[test]
fn parse_single_key() {
    let keys = parse_custom_combo("custom:space").unwrap();
    assert_eq!(keys, vec!["space"]);
}

#[test]
fn parse_returns_none_for_non_custom() {
    assert!(parse_custom_combo("copy").is_none());
}

#[test]
fn parse_returns_none_for_unknown_key() {
    assert!(parse_custom_combo("custom:ctrl+banana").is_none());
}

#[test]
fn parse_skips_empty_segments() {
    let keys = parse_custom_combo("custom:ctrl++a").unwrap();
    assert_eq!(keys, vec!["ctrl", "a"]);
}

#[test]
fn parse_trims_spaces_around_names() {
    let keys = parse_custom_combo("custom: ctrl + a ").unwrap();
    assert_eq!(keys, vec!["ctrl", "a"]);
}

#[test]
fn parse_empty_combo_gives_no_keys() {
    assert_eq!(parse_custom_combo("custom:").unwrap(), Vec::<String>::new());
}

#[test]
fn label_of_empty_combo_is_empty() {
    assert_eq!(custom_action_label("custom:"), "");
}

#[test]
fn label_trims_and_capitalises_each_part() {
    assert_eq!(custom_action_label("custom: alt +tab"), "Alt + Tab");
}
