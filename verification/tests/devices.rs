use mouser::devices::{
    build_connected_device_info, clamp_dpi, iter_known_devices, normalize_name, resolve_device,
    DEFAULT_DPI_MAX, DEFAULT_DPI_MIN,
};
use mouser::hid_gesture::default_gesture_cids;

#[test]
fn test_normalize_name() {
    assert_eq!(normalize_name("  MX_Master 3  "), "mx master 3");
    assert_eq!(normalize_name("MX  Master  3"), "mx master 3");
    assert_eq!(normalize_name(""), "");
    assert_eq!(normalize_name("   "), "");
}

#[test]
fn test_resolve_device_by_product_id() {
    let dev = resolve_device(Some(0xB034), None);
    assert!(dev.is_some());
    assert_eq!(dev.unwrap().key, "mx_master_3s");
}

#[test]
fn test_resolve_device_by_name() {
    let dev = resolve_device(None, Some("MX Master 3S"));
    assert!(dev.is_some());
    assert_eq!(dev.unwrap().key, "mx_master_3s");
}

#[test]
fn test_resolve_device_by_alias() {
    let dev = resolve_device(None, Some("Logitech MX Master 3S"));
    assert!(dev.is_some());
    assert_eq!(dev.unwrap().key, "mx_master_3s");
}

#[test]
fn test_resolve_device_case_insensitive() {
    let dev = resolve_device(None, Some("mx master 3s"));
    assert!(dev.is_some());
    assert_eq!(dev.unwrap().key, "mx_master_3s");
}

#[test]
fn test_resolve_device_underscore_alias() {
    let dev = resolve_device(None, Some("MX_Master_4"));
    assert!(dev.is_some());
    assert_eq!(dev.unwrap().key, "mx_master_4");
}

#[test]
fn test_resolve_device_unknown() {
    assert!(resolve_device(Some(0xFFFF), None).is_none());
    assert!(resolve_device(None, Some("Unknown Mouse")).is_none());
    assert!(resolve_device(None, None).is_none());
}

#[test]
fn test_clamp_dpi_defaults() {
    assert_eq!(clamp_dpi(100, None), DEFAULT_DPI_MIN);
    assert_eq!(clamp_dpi(10000, None), DEFAULT_DPI_MAX);
    assert_eq!(clamp_dpi(1200, None), 1200);
}

#[test]
fn test_clamp_dpi_with_device() {
    let dev = resolve_device(Some(0xB019), None).unwrap();
    assert_eq!(clamp_dpi(5000, Some(&dev)), 4000);
    assert_eq!(clamp_dpi(100, Some(&dev)), DEFAULT_DPI_MIN);
    assert_eq!(clamp_dpi(3000, Some(&dev)), 3000);
}

#[test]
fn test_iter_known_devices_count() {
    assert_eq!(iter_known_devices().len(), 9);
}

#[test]
fn test_build_connected_device_info_known() {
    let info = build_connected_device_info(Some(0xB042), None, Some("usb"), Some("hidapi"), None);
    assert_eq!(info.key, "mx_master_4");
    assert_eq!(info.display_name, "MX Master 4");
    assert_eq!(info.ui_layout, "mx_master");
    assert_eq!(info.transport.as_deref(), Some("usb"));
    assert_eq!(info.source.as_deref(), Some("hidapi"));
    assert_eq!(info.gesture_cids, default_gesture_cids());
}

#[test]
fn test_build_connected_device_info_unknown_with_pid() {
    let info = build_connected_device_info(Some(0x1234), None, None, None, None);
    assert_eq!(info.display_name, "Logitech PID 0x1234");
    assert_eq!(info.key, "logitech_pid_0x1234");
    assert_eq!(info.ui_layout, "generic_mouse");
    assert_eq!(info.image_asset, "icons/mouse-simple.svg");
}

#[test]
fn test_build_connected_device_info_unknown_no_pid() {
    let info = build_connected_device_info(None, None, None, None, None);
    assert_eq!(info.display_name, "Logitech mouse");
    assert_eq!(info.key, "logitech_mouse");
}

#[test]
fn test_build_connected_device_info_custom_gesture_cids() {
    let custom_cids: &[u16] = &[0x0001, 0x0002];
    let info = build_connected_device_info(Some(0xB042), None, None, None, Some(custom_cids));
    assert_eq!(info.gesture_cids, vec![0x0001, 0x0002]);
}

#[test]
fn test_build_connected_device_info_with_product_name() {
    let info = build_connected_device_info(None, Some("My Custom Mouse"), None, None, None);
    assert_eq!(info.display_name, "My Custom Mouse");
    assert_eq!(info.key, "my_custom_mouse");
    assert_eq!(info.ui_layout, "generic_mouse");
}

#[test]
fn test_all_specs_have_at_least_one_product_id() {
    for spec in iter_known_devices() {
        assert!(!spec.product_ids.is_empty(), "spec {} has no product IDs", spec.key);
    }
}

#[test]
fn test_spec_matches_product_id_priority() {
    let spec = &iter_known_devices()[0];
    assert!(spec.matches(Some(0xB042), Some("completely wrong name")));
}

#[test]
fn test_spec_matches_none_none() {
    let spec = &iter_known_devices()[0];
    assert!(!spec.matches(None, None));
}

#[test]
fn known_device_keeps_product_name_and_limits() {
    let info = build_connected_device_info(Some(0xB019), Some("MX Master 2S"), None, None, None);
    assert_eq!(info.product_name.as_deref(), Some("MX Master 2S"));
    assert_eq!(info.dpi_min, 200);
    assert_eq!(info.dpi_max, 4000);
    assert_eq!(info.supported_buttons.len(), 11);
}

#[test]
fn known_device_without_name_uses_display_name() {
    let info = build_connected_device_info(Some(0xB034), None, None, None, None);
    assert_eq!(info.product_name.as_deref(), Some("MX Master 3S"));
    assert_eq!(info.product_id, Some(0xB034));
}

#[test]
fn blank_name_matches_nothing() {
    let spec = &iter_known_devices()[0];
    assert!(!spec.matches(None, Some("   ")));
    assert!(resolve_device(None, Some("   ")).is_none());
}

#[test]
fn unknown_device_with_blank_name_gets_generic_key() {
    let info = build_connected_device_info(None, Some("  "), None, None, None);
    assert_eq!(info.display_name, "  ");
    assert_eq!(info.key, "logitech_mouse");
}

#[test]
fn clamp_dpi_handles_negative_values() {
    assert_eq!(clamp_dpi(-5, None), DEFAULT_DPI_MIN);
}
