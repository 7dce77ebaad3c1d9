//! How the running engine answers the interface's requests: what each one
//! changes in the configuration, the engine and the interface state, and
//! what the caller still has to do (save, re-read, talk to the device).

use vstd::prelude::*;
use crate::config::{create_profile, delete_profile, has_key, mapping_set, profile_created, profile_deleted, set_mapping, Config, Settings};
use crate::engine::{opt_string_view, Engine};
use crate::ui::{UiMessage, UiState};

verus! {

/// What the caller does after a message has been handled.
pub struct UiFollowUp {
    /// Stop the engine and leave.
    pub quit: bool,
    /// Write the engine's configuration to disk.
    pub save_config: bool,
    /// Read the configuration from disk into the engine and re-wire the hook.
    pub reload_mappings: bool,
    /// Register (`true`) or remove (`false`) the login item.
    pub login_item: Option<bool>,
    /// DPI to send to the device.
    pub send_dpi: Option<u16>,
    /// Smart Shift mode to send to the device.
    pub send_smart_shift: Option<String>,
}

/// The engine's state apart from its configuration is unchanged.
pub open spec fn same_engine_state(a: Engine, b: Engine) -> bool {
    &&& a.current_profile == b.current_profile
    &&& a.enabled == b.enabled
    &&& a.debug_enabled == b.debug_enabled
    &&& a.hscroll_left == b.hscroll_left
    &&& a.hscroll_right == b.hscroll_right
}

/// The configuration with other settings.
pub open spec fn with_settings(c: Config, s: Settings) -> Config {
    Config { settings: s, ..c }
}

/// The configuration that a settings-only message leaves.
pub open spec fn settings_after(c: Config, msg: UiMessage) -> Config {
    match msg {
        UiMessage::SetStartAtLogin(v) => with_settings(c, Settings { start_at_login: v, ..c.settings }),
        UiMessage::SetStartMinimized(v) => with_settings(c, Settings { start_minimized: v, ..c.settings }),
        UiMessage::SetInvertHScroll(v) => with_settings(c, Settings { invert_hscroll: v, ..c.settings }),
        UiMessage::SetInvertVScroll(v) => with_settings(c, Settings { invert_vscroll: v, ..c.settings }),
        UiMessage::SetHScrollThreshold(v) => with_settings(c, Settings { hscroll_threshold_milli: v, ..c.settings }),
        UiMessage::SetLanguage(l) => with_settings(c, Settings { language: l, ..c.settings }),
        _ => c,
    }
}

pub open spec fn is_settings_message(msg: UiMessage) -> bool {
    ||| msg is SetStartAtLogin
    ||| msg is SetStartMinimized
    ||| msg is SetInvertHScroll
    ||| msg is SetInvertVScroll
    ||| msg is SetHScrollThreshold
    ||| msg is SetLanguage
}

/// The messages after which the mappings are read again and re-wired.
pub open spec fn reloads(msg: UiMessage) -> bool {
    ||| msg is SetMapping
    ||| msg is SwitchProfile
    ||| msg is DeleteProfile
    ||| msg is SetInvertHScroll
    ||| msg is SetHScrollThreshold
    ||| msg is ShowSettings
}

/// Whether the configuration is saved after `msg`, given the
/// configuration it found.
pub open spec fn saves(msg: UiMessage, before: Config) -> bool {
    match msg {
        UiMessage::DeleteProfile(name) => name@ != "default"@ && has_key(before.profiles.view(), name@),
        UiMessage::Quit => false,
        UiMessage::ShowSettings => false,
        UiMessage::HideSettings => false,
        _ => true,
    }
}

/// Handles one message from the interface.  The configuration changes in
/// the engine, the interface state is updated, and the result says what
/// the caller still owes: saving, re-reading the mappings, the login item,
/// the values to send to the device, or quitting.
pub fn handle_ui_message(msg: UiMessage, eng: &mut Engine, state: &mut UiState) -> (r: UiFollowUp)
    requires
        old(eng).wf(),
    ensures
        final(eng).wf(),
        r.quit == (msg is Quit),
        r.reload_mappings == reloads(msg),
        r.save_config == saves(msg, old(eng).config),
        r.login_item == (match msg {
            UiMessage::SetStartAtLogin(v) => Some(v),
            _ => None::<bool>,
        }),
        r.send_dpi == (match msg {
            UiMessage::SetDpi(d) => Some(d as u16),
            _ => None::<u16>,
        }),
        opt_string_view(r.send_smart_shift) == (match msg {
            UiMessage::SetSmartShift(m) => Some(m@),
            _ => None::<Seq<char>>,
        }),
        msg is SetDebugMode ==> final(eng).current_profile == old(eng).current_profile
            && final(eng).enabled == old(eng).enabled,
        !(msg is SetDebugMode) ==> same_engine_state(*final(eng), *old(eng)),
        match msg {
            UiMessage::SetMapping { profile, button, action_id } =>
                mapping_set(old(eng).config, final(eng).config, profile@, button@, action_id@)
                && *final(state) == *old(state),
            UiMessage::SetDpi(d) =>
                final(eng).config == with_settings(old(eng).config, Settings { dpi: d, ..old(eng).config.settings })
                && *final(state) == (UiState { dpi: d, ..*old(state) }),
            UiMessage::SetSmartShift(m) =>
                final(eng).config.settings.smart_shift_mode@ == m@
                && final(eng).config.settings.dpi == old(eng).config.settings.dpi
                && final(eng).config.profiles == old(eng).config.profiles
                && final(eng).config.active_profile == old(eng).config.active_profile
                && *final(state) == (UiState { smart_shift_mode: m, ..*old(state) }),
            UiMessage::CreateProfile { name, label, copy_from } =>
                profile_created(old(eng).config, final(eng).config, name@, label@, match copy_from {
                    Some(c) => Some(c@),
                    None => None::<Seq<char>>,
                })
                && *final(state) == *old(state),
            UiMessage::DeleteProfile(name) =>
                profile_deleted(old(eng).config, final(eng).config, name@, r.save_config)
                && *final(state) == *old(state),
            UiMessage::SwitchProfile(name) =>
                final(eng).config == (Config { active_profile: name, ..old(eng).config })
                && *final(state) == (UiState { current_profile: name, ..*old(state) }),
            UiMessage::SetDebugMode(v) =>
                final(eng).debug_enabled == v
                && final(eng).config.settings.debug_mode == v
                && final(eng).config.settings.dpi == old(eng).config.settings.dpi
                && final(eng).config.profiles == old(eng).config.profiles
                && final(eng).config.active_profile == old(eng).config.active_profile
                && *final(state) == *old(state),
            _ => final(eng).config == settings_after(old(eng).config, msg) && *final(state) == *old(state),
        },
{
    let mut r = UiFollowUp {
        quit: false,
        save_config: true,
        reload_mappings: false,
        login_item: None,
        send_dpi: None,
        send_smart_shift: None,
    };
    match msg {
        UiMessage::Quit => {
            r.quit = true;
            r.save_config = false;
        },
        UiMessage::SetDpi(dpi) => {
            let sent = eng.set_dpi(dpi);
            r.send_dpi = Some(sent);
            state.dpi = dpi;
        },
        UiMessage::SetSmartShift(mode) => {
            eng.set_smart_shift(mode.as_str());
            r.send_smart_shift = Some(mode.clone());
            state.smart_shift_mode = mode;
        },
        UiMessage::SetMapping { profile, button, action_id } => {
            set_mapping(&mut eng.config, button.as_str(), action_id.as_str(), profile.as_str());
            r.reload_mappings = true;
        },
        UiMessage::SwitchProfile(name) => {
            state.current_profile = name.clone();
            eng.config.active_profile = name;
            r.reload_mappings = true;
        },
        UiMessage::CreateProfile { name, label, copy_from } => {
            let src: Option<&str> = match &copy_from {
                Some(c) => Some(c.as_str()),
                None => None,
            };
            create_profile(&mut eng.config, name.as_str(), label.as_str(), src);
        },
        UiMessage::DeleteProfile(name) => {
            r.save_config = delete_profile(&mut eng.config, name.as_str());
            r.reload_mappings = true;
        },
        UiMessage::SetStartAtLogin(v) => {
            r.login_item = Some(v);
            eng.config.settings.start_at_login = v;
        },
        UiMessage::SetStartMinimized(v) => {
            eng.config.settings.start_minimized = v;
        },
        UiMessage::SetInvertHScroll(v) => {
            eng.config.settings.invert_hscroll = v;
            r.reload_mappings = true;
        },
        UiMessage::SetInvertVScroll(v) => {
            eng.config.settings.invert_vscroll = v;
        },
        UiMessage::SetHScrollThreshold(v) => {
            eng.config.settings.hscroll_threshold_milli = v;
            r.reload_mappings = true;
        },
        UiMessage::SetLanguage(lang) => {
            eng.config.settings.language = lang;
        },
        UiMessage::SetDebugMode(v) => {
            eng.set_debug_enabled(v);
        },
        UiMessage::ShowSettings => {
            r.save_config = false;
            r.reload_mappings = true;
        },
        UiMessage::HideSettings => {
            r.save_config = false;
        },
    }
    r
}

} // verus!
