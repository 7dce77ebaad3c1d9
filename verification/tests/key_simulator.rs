use mouser::actions::{parse_custom_combo, valid_custom_key_names};
use mouser::key_simulator::{
    custom_action_label, execute_action, execute_action_with_hold, linux, macos, windows,
    DispatchKind, DEFAULT_HOLD_MS,
};

#[test]
fn label_formats_correctly() {
    assert_eq!(custom_action_label("custom:ctrl+shift+a"), "Ctrl + Shift + A");
}

#[test]
fn label_single_key() {
    assert_eq!(custom_action_label("custom:f5"), "F5");
}

#[test]
fn mod_label_passthrough_for_non_custom() {
    assert_eq!(custom_action_label("copy"), "copy");
}

#[test]
fn label_super_key() {
    assert_eq!(custom_action_label("custom:super+d"), "Super + D");
}

#[test]
fn execute_none_is_ok() {
    let d = execute_action("none");
    assert_eq!(d.kind, DispatchKind::Nothing);
    assert!(d.keys.is_empty());
}

#[test]
fn empty_custom_combo_is_ok() {
    let d = execute_action("custom:");
    assert_eq!(d.kind, DispatchKind::CustomEmpty);
    assert!(d.keys.is_empty());
}

#[test]
fn unknown_key_name_in_custom_returns_ok() {
    let d = execute_action("custom:ctrl+banana");
    assert_eq!(d.kind, DispatchKind::CustomInvalid);
    assert!(d.keys.is_empty());
}

#[test]
fn parse_custom_combo_valid() {
    let keys = parse_custom_combo("custom:ctrl+c").unwrap();
    assert_eq!(keys, vec!["ctrl", "c"]);
}

#[test]
fn parse_custom_combo_invalid_key() {
    assert!(parse_custom_combo("custom:ctrl+notakey").is_none());
}

#[test]
fn parse_custom_combo_non_custom_id() {
    assert!(parse_custom_combo("copy").is_none());
}

#[test]
fn all_valid_key_names_resolve_on_windows() {
    for name in valid_custom_key_names() {
        assert!(
            windows::key_name_to_vk(name).is_some(),
            "Windows: no VK for '{}'",
            name
        );
    }
}

#[test]
fn all_valid_key_names_resolve_on_macos() {
    let media_names = &["volumeup", "volumedown", "mute", "playpause", "nexttrack", "prevtrack"];
    for name in valid_custom_key_names() {
        if media_names.contains(&name) {
            continue;
        }
        assert!(
            macos::key_name_to_keycode(name).is_some(),
            "macOS: no keycode for '{}'",
            name
        );
    }
}

#[test]
fn all_valid_key_names_resolve_on_linux() {
    for name in valid_custom_key_names() {
        assert!(
            linux::key_name_to_key(name).is_some(),
            "Linux: no evdev Key for '{}'",
            name
        );
    }
}

#[test]
fn builtin_and_custom_dispatch() {
    let d = execute_action("copy");
    assert_eq!(d.kind, DispatchKind::Builtin);
    assert_eq!(d.action_id, "copy");
    assert_eq!(d.hold_ms, DEFAULT_HOLD_MS);
    let d = execute_action_with_hold("custom:ctrl+c", 10);
    assert_eq!(d.kind, DispatchKind::Custom);
    assert_eq!(d.keys, vec!["ctrl", "c"]);
    assert_eq!(d.hold_ms, 10);
}

#[test]
fn windows_actions_and_inputs() {
    let a = windows::execute_action("copy", 50);
    assert_eq!(a.kind, windows::WinActionKind::Combo);
    assert_eq!(a.keys, vec![windows::VK_CONTROL, 0x43]);
    assert_eq!(a.hold_ms, 50);
    let a = windows::execute_action("browser_back", 30);
    assert_eq!(a.kind, windows::WinActionKind::PhasedAltArrow);
    assert_eq!(a.keys, vec![windows::VK_LEFT]);
    assert_eq!(windows::execute_action("launchpad", 50).kind, windows::WinActionKind::NotAvailable);
    assert_eq!(windows::execute_action("bogus", 50).kind, windows::WinActionKind::Unknown);
    assert_eq!(windows::execute_action("none", 50).kind, windows::WinActionKind::Nothing);
    let phases = windows::combo_phases(&[windows::VK_CONTROL, windows::VK_LEFT], 40);
    assert_eq!(
        phases.press,
        vec![
            windows::KeyInput { vk: windows::VK_CONTROL, flags: 0 },
            windows::KeyInput { vk: windows::VK_LEFT, flags: windows::KEYEVENTF_EXTENDEDKEY },
        ]
    );
    assert_eq!(phases.hold_ms, 40);
    assert_eq!(
        phases.release,
        vec![
            windows::KeyInput { vk: windows::VK_LEFT, flags: windows::KEYEVENTF_KEYUP | windows::KEYEVENTF_EXTENDEDKEY },
            windows::KeyInput { vk: windows::VK_CONTROL, flags: windows::KEYEVENTF_KEYUP },
        ]
    );
    let empty = windows::combo_phases(&[], 40);
    assert!(empty.press.is_empty() && empty.release.is_empty());
    let (batches, pause) = windows::phased_alt_arrow(windows::VK_RIGHT, 0);
    assert_eq!(pause, 1);
    assert_eq!(batches.len(), 3);
    assert_eq!(batches[0], vec![windows::KeyInput { vk: windows::VK_LMENU, flags: 0 }]);
    assert_eq!(batches[2], vec![windows::KeyInput { vk: windows::VK_LMENU, flags: windows::KEYEVENTF_KEYUP }]);
    assert!(windows::is_extended(windows::VK_VOLUME_UP) && !windows::is_extended(windows::VK_CONTROL));
    let names = vec!["ctrl".to_string(), "zzz".to_string(), "a".to_string()];
    assert_eq!(windows::custom_vks(&names), vec![windows::VK_CONTROL, 0x41]);
    let c = windows::execute_custom(&[1, 2], 25);
    assert_eq!(c.keys, vec![1, 2]);
    assert_eq!(c.hold_ms, 25);
}

#[test]
fn windows_copy_is_pressed_held_and_released() {
    let a = windows::execute_action("copy", 50);
    let (batches, pause) = windows::send_plan(&a);
    assert_eq!(pause, 50);
    assert_eq!(
        batches,
        vec![
            vec![
                windows::KeyInput { vk: windows::VK_CONTROL, flags: 0 },
                windows::KeyInput { vk: 0x43, flags: 0 },
            ],
            vec![
                windows::KeyInput { vk: 0x43, flags: windows::KEYEVENTF_KEYUP },
                windows::KeyInput { vk: windows::VK_CONTROL, flags: windows::KEYEVENTF_KEYUP },
            ],
        ]
    );
    let (batches, pause) = windows::send_plan(&windows::execute_action("browser_forward", 0));
    assert_eq!(batches.len(), 3);
    assert_eq!(pause, 1);
    assert_eq!(
        batches[1],
        vec![
            windows::KeyInput { vk: windows::VK_RIGHT, flags: windows::KEYEVENTF_EXTENDEDKEY },
            windows::KeyInput { vk: windows::VK_RIGHT, flags: windows::KEYEVENTF_KEYUP | windows::KEYEVENTF_EXTENDEDKEY },
        ]
    );
    for id in ["none", "mission_control", "app_expose", "show_desktop", "launchpad", "bogus"] {
        assert!(windows::send_plan(&windows::execute_action(id, 50)).0.is_empty());
    }
}

#[test]
fn windows_send_result_needs_every_record() {
    assert_eq!(windows::batch_result(4, 4), Ok(()));
    assert_eq!(
        windows::batch_result(3, 4),
        Err(windows::SendShortfall { sent: 3, expected: 4 })
    );
    assert_eq!(windows::batches_result(&[2, 2], &[2, 2]), Ok(()));
    assert_eq!(
        windows::batches_result(&[2, 1], &[2, 2]),
        Err(windows::SendShortfall { sent: 1, expected: 2 })
    );
    assert_eq!(
        windows::batches_result(&[0, 0, 0], &[1, 2, 1]),
        Err(windows::SendShortfall { sent: 0, expected: 1 })
    );
    assert_eq!(windows::batches_result(&[], &[]), Ok(()));
}

#[test]
fn macos_actions_and_events() {
    let a = macos::execute_action("mission_control");
    assert_eq!(a.kind, macos::MacActionKind::Dock);
    assert_eq!(a.notification, "com.apple.expose.awake");
    assert_eq!(a.keys, vec![macos::KVK_CONTROL, macos::KVK_UP_ARROW]);
    let a = macos::execute_action("space_right");
    assert_eq!(a.kind, macos::MacActionKind::SymbolicHotKey);
    assert_eq!(a.hotkey, 81);
    let a = macos::execute_action("play_pause");
    assert_eq!(a.kind, macos::MacActionKind::Media);
    assert_eq!(a.media_key, 16);
    assert_eq!(macos::execute_action("copy").keys, vec![macos::KVK_COMMAND, macos::KVK_ANSI_C]);
    assert_eq!(macos::execute_action("nope").kind, macos::MacActionKind::Unknown);
    assert_eq!(macos::modifier_flags_for_keys(&[macos::KVK_COMMAND, macos::KVK_SHIFT, 0x00]), macos::FLAG_COMMAND | macos::FLAG_SHIFT);
    let ev = macos::combo_events(&[macos::KVK_COMMAND, macos::KVK_ANSI_C]);
    assert_eq!(ev.len(), 4);
    assert!(ev[0].down && ev[0].flags == Some(macos::FLAG_COMMAND));
    assert!(!ev[2].down && ev[2].keycode == macos::KVK_ANSI_C && ev[2].flags.is_none());
    let plain = macos::combo_events(&[macos::KVK_F4]);
    assert!(plain[0].flags.is_none());
    assert_eq!(macos::media_key_data(macos::NX_KEYTYPE_PLAY), (0x10_0A00, 0x10_0B00));
}

#[test]
fn linux_actions_and_detents() {
    assert_eq!(linux::execute_action("space_left", "ubuntu:GNOME").keys, vec![linux::KEY_LEFTMETA, linux::KEY_PAGEUP]);
    assert_eq!(
        linux::execute_action("space_right", "KDE").keys,
        vec![linux::KEY_LEFTCTRL, linux::KEY_LEFTMETA, linux::KEY_RIGHT]
    );
    assert_eq!(linux::execute_action("mission_control", "").kind, linux::LinuxActionKind::NotAvailable);
    assert_eq!(linux::execute_action("browser_back", "").keys, vec![linux::KEY_BACK]);
    assert_eq!(linux::scroll_detents(240), 2);
    assert_eq!(linux::scroll_detents(-250), -2);
    assert_eq!(linux::scroll_detents(30), 1);
    assert_eq!(linux::scroll_detents(0), -1);
    assert_eq!(linux::all_keys().len(), 64);
    assert_eq!(linux::key_name_to_key("f11"), Some(87));
}

#[test]
fn workspace_keys_follow_desktop_in_any_case() {
    assert_eq!(
        linux::workspace_keys(true, "ubuntu:gnome"),
        vec![linux::KEY_LEFTMETA, linux::KEY_PAGEUP]
    );
    assert_eq!(
        linux::workspace_keys(false, "KDE"),
        vec![linux::KEY_LEFTCTRL, linux::KEY_LEFTMETA, linux::KEY_RIGHT]
    );
}
