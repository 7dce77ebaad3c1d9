//! What the user interface shows: the state snapshot the engine keeps up
//! to date, and the labels of buttons and actions.

use vstd::prelude::*;
use crate::actions::{find_action, get_action, spec_actions, spec_custom_label, custom_prefix};
use crate::config::Config;
use crate::text::{chars_of, chars_start_with, has_prefix, str_eq};

verus! {

/// A request from the interface to the engine.  The scroll threshold is in
/// thousandths of a wheel step.
pub enum UiMessage {
    SetMapping { profile: String, button: String, action_id: String },
    SetDpi(u32),
    SetSmartShift(String),
    CreateProfile { name: String, label: String, copy_from: Option<String> },
    DeleteProfile(String),
    SwitchProfile(String),
    SetStartAtLogin(bool),
    SetStartMinimized(bool),
    SetInvertHScroll(bool),
    SetInvertVScroll(bool),
    SetHScrollThreshold(u32),
    SetLanguage(String),
    SetDebugMode(bool),
    Quit,
    ShowSettings,
    HideSettings,
}

/// The engine's state as the interface shows it.
pub struct UiState {
    pub device_name: String,
    pub battery_pct: Option<u8>,
    pub current_profile: String,
    pub enabled: bool,
    pub dpi: u32,
    pub smart_shift_mode: String,
}

impl Default for UiState {
    fn default() -> (r: Self)
        ensures
            r.device_name@ == "No device"@,
            r.battery_pct is None,
            r.current_profile@ == "default"@,
            r.enabled,
            r.dpi == 1000,
            r.smart_shift_mode@ == "ratchet"@,
    {
        UiState {
            device_name: "No device".to_owned(),
            battery_pct: None,
            current_profile: "default".to_owned(),
            enabled: true,
            dpi: 1000,
            smart_shift_mode: "ratchet".to_owned(),
        }
    }
}

impl UiState {
    /// The start-up state: the defaults, with the active profile, DPI and
    /// Smart Shift mode of the configuration.
    pub fn from_config(cfg: &Config) -> (r: Self)
        ensures
            r.device_name@ == "No device"@,
            r.battery_pct is None,
            r.current_profile@ == cfg.active_profile@,
            r.enabled,
            r.dpi == cfg.settings.dpi,
            r.smart_shift_mode@ == cfg.settings.smart_shift_mode@,
    {
        let mut s = UiState::default();
        s.current_profile = cfg.active_profile.clone();
        s.dpi = cfg.settings.dpi;
        s.smart_shift_mode = cfg.settings.smart_shift_mode.clone();
        s
    }

    /// A device connected: its description becomes the device name.
    pub fn on_device_connected(&mut self, info: &str)
        ensures
            final(self).device_name@ == info@,
            final(self).battery_pct == old(self).battery_pct,
            final(self).current_profile == old(self).current_profile,
            final(self).enabled == old(self).enabled,
            final(self).dpi == old(self).dpi,
            final(self).smart_shift_mode == old(self).smart_shift_mode,
    {
        self.device_name = info.to_owned();
    }

    /// The device went away: no device, no battery level.
    pub fn on_device_disconnected(&mut self)
        ensures
            final(self).device_name@ == "No device"@,
            final(self).battery_pct is None,
            final(self).current_profile == old(self).current_profile,
            final(self).enabled == old(self).enabled,
            final(self).dpi == old(self).dpi,
            final(self).smart_shift_mode == old(self).smart_shift_mode,
    {
        self.device_name = "No device".to_owned();
        self.battery_pct = None;
    }

    /// A battery reading arrived.
    pub fn on_battery(&mut self, pct: u8)
        ensures
            final(self).battery_pct == Some(pct),
            final(self).device_name == old(self).device_name,
            final(self).current_profile == old(self).current_profile,
            final(self).enabled == old(self).enabled,
            final(self).dpi == old(self).dpi,
            final(self).smart_shift_mode == old(self).smart_shift_mode,
    {
        self.battery_pct = Some(pct);
    }

    /// The device reported its DPI.
    pub fn on_dpi_changed(&mut self, dpi: u16)
        ensures
            final(self).dpi == dpi as u32,
            final(self).battery_pct == old(self).battery_pct,
            final(self).device_name == old(self).device_name,
            final(self).current_profile == old(self).current_profile,
            final(self).enabled == old(self).enabled,
            final(self).smart_shift_mode == old(self).smart_shift_mode,
    {
        self.dpi = dpi as u32;
    }
}

/// The label of a button key; unknown keys are their own label.
pub open spec fn spec_button_label(key: Seq<char>) -> Seq<char> {
    if key == "middle"@ {
        "Middle Button"@
    } else if key == "gesture"@ {
        "Gesture Button"@
    } else if key == "xbutton1"@ {
        "Back Button"@
    } else if key == "xbutton2"@ {
        "Forward Button"@
    } else if key == "gesture_left"@ {
        "Gesture Left"@
    } else if key == "gesture_right"@ {
        "Gesture Right"@
    } else if key == "gesture_up"@ {
        "Gesture Up"@
    } else if key == "gesture_down"@ {
        "Gesture Down"@
    } else if key == "mode_shift"@ {
        "Mode Shift"@
    } else if key == "hscroll_left"@ {
        "H-Scroll Left"@
    } else if key == "hscroll_right"@ {
        "H-Scroll Right"@
    } else {
        key
    }
}

pub fn button_label(key: &str) -> (r: String)
    ensures
        r@ == spec_button_label(key@),
{
    let s: &str = if str_eq(key, "middle") {
        "Middle Button"
    } else if str_eq(key, "gesture") {
        "Gesture Button"
    } else if str_eq(key, "xbutton1") {
        "Back Button"
    } else if str_eq(key, "xbutton2") {
        "Forward Button"
    } else if str_eq(key, "gesture_left") {
        "Gesture Left"
    } else if str_eq(key, "gesture_right") {
        "Gesture Right"
    } else if str_eq(key, "gesture_up") {
        "Gesture Up"
    } else if str_eq(key, "gesture_down") {
        "Gesture Down"
    } else if str_eq(key, "mode_shift") {
        "Mode Shift"
    } else if str_eq(key, "hscroll_left") {
        "H-Scroll Left"
    } else if str_eq(key, "hscroll_right") {
        "H-Scroll Right"
    } else {
        key
    };
    s.to_owned()
}

/// The label of an action id: a built-in action's label, a custom
/// shortcut's formatted keys, or the id itself.
pub open spec fn spec_action_label(action_id: Seq<char>) -> Seq<char> {
    match find_action(spec_actions(), action_id) {
        Some(a) => a.label@,
        None => if has_prefix(action_id, custom_prefix()) {
            spec_custom_label(action_id)
        } else {
            action_id
        },
    }
}

pub fn action_label(action_id: &str) -> (r: String)
    ensures
        r@ == spec_action_label(action_id@),
{
    if let Some(a) = get_action(action_id) {
        return a.label.to_owned();
    }
    let id = chars_of(action_id);
    let prefix = chars_of("custom:");
    if chars_start_with(&id, &prefix) {
        return crate::actions::custom_action_label(action_id);
    }
    action_id.to_owned()
}

} // verus!
