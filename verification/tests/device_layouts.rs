use mouser::device_layouts::{
    device_layouts, generic_mouse_layout, get_device_layout, get_manual_layout_choices,
    mx_anywhere_layout, mx_master_layout, mx_vertical_layout,
};

#[test]
fn test_mx_master_hotspot_count() {
    assert_eq!(mx_master_layout().hotspots.len(), 6);
}

#[test]
fn test_mx_master_is_interactive() {
    assert!(mx_master_layout().interactive);
    assert!(mx_master_layout().manual_selectable);
}

#[test]
fn test_generic_mouse_has_no_hotspots() {
    assert!(generic_mouse_layout().hotspots.is_empty());
    assert!(!generic_mouse_layout().interactive);
}

#[test]
fn test_mx_anywhere_inherits_generic_dimensions() {
    assert_eq!(mx_anywhere_layout().image_width, generic_mouse_layout().image_width);
    assert_eq!(mx_anywhere_layout().image_height, generic_mouse_layout().image_height);
    assert!(!mx_anywhere_layout().interactive);
}

#[test]
fn test_mx_vertical_inherits_generic_dimensions() {
    assert_eq!(mx_vertical_layout().image_width, generic_mouse_layout().image_width);
    assert_eq!(mx_vertical_layout().image_height, generic_mouse_layout().image_height);
    assert!(!mx_vertical_layout().interactive);
}

#[test]
fn test_get_device_layout_known_key() {
    let layout = get_device_layout(Some("mx_master"));
    assert_eq!(layout.key, "mx_master");
    assert_eq!(layout.hotspots.len(), 6);
}

#[test]
fn test_get_device_layout_unknown_falls_back() {
    let layout = get_device_layout(Some("nonexistent"));
    assert_eq!(layout.key, "generic_mouse");
}

#[test]
fn test_get_device_layout_none_falls_back() {
    let layout = get_device_layout(None);
    assert_eq!(layout.key, "generic_mouse");
}

#[test]
fn test_get_device_layout_empty_falls_back() {
    let layout = get_device_layout(Some(""));
    assert_eq!(layout.key, "generic_mouse");
}

#[test]
fn test_manual_layout_choices_starts_with_auto() {
    let choices = get_manual_layout_choices();
    assert!(!choices.is_empty());
    assert_eq!(choices[0].key, "");
    assert_eq!(choices[0].label, "Auto-detect");
}

#[test]
fn test_manual_layout_choices_includes_mx_master() {
    let choices = get_manual_layout_choices();
    assert!(choices.iter().any(|c| c.key == "mx_master"));
}

#[test]
fn test_manual_layout_choices_excludes_non_selectable() {
    let choices = get_manual_layout_choices();
    assert!(!choices.iter().any(|c| c.key == "generic_mouse"));
    assert!(!choices.iter().any(|c| c.key == "mx_anywhere"));
    assert!(!choices.iter().any(|c| c.key == "mx_vertical"));
}

#[test]
fn test_hotspot_hscroll_flag() {
    let layout = mx_master_layout();
    let hscroll = layout
        .hotspots
        .iter()
        .find(|h| h.button_key == "hscroll_left")
        .expect("hscroll_left hotspot missing");
    assert!(hscroll.is_hscroll);
    for h in layout.hotspots.iter() {
        if h.button_key != "hscroll_left" {
            assert!(!h.is_hscroll, "{} should not be hscroll", h.button_key);
        }
    }
}

#[test]
fn test_device_layouts_registry_has_all_four() {
    let layouts = device_layouts();
    assert_eq!(layouts.len(), 4);
    let keys: Vec<&str> = layouts.iter().map(|l| l.key).collect();
    assert!(keys.contains(&"mx_master"));
    assert!(keys.contains(&"mx_anywhere"));
    assert!(keys.contains(&"mx_vertical"));
    assert!(keys.contains(&"generic_mouse"));
}

#[test]
fn test_hotspot_norm_coords_in_range() {
    for layout in device_layouts().iter() {
        for h in layout.hotspots.iter() {
            assert!(h.norm_x_milli <= 1000, "{}/{}: normX out of range", layout.key, h.button_key);
            assert!(h.norm_y_milli <= 1000, "{}/{}: normY out of range", layout.key, h.button_key);
        }
    }
}

#[test]
fn manual_choices_are_auto_then_mx_master() {
    let choices = get_manual_layout_choices();
    let keys: Vec<&str> = choices.iter().map(|c| c.key).collect();
    assert_eq!(keys, vec!["", "mx_master"]);
}

#[test]
fn mx_master_hotspot_positions_in_thousandths() {
    let layout = mx_master_layout();
    assert_eq!(layout.hotspots[0].norm_x_milli, 330);
    assert_eq!(layout.hotspots[4].norm_y_milli, 375);
}
