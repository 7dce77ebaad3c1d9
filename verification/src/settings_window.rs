//! The settings window's model: the values it edits, the profile it shows,
//! and the request each edit sends to the engine.  Drawing the window is
//! the user-interface toolkit's part.

use vstd::prelude::*;
use crate::config::{copy_mappings, has_key, key_index, lookup, string_entries, with_entry, Config, StrMap};
use crate::text::{chars_of, lex_sorted, sort_strings, str_eq, string_of, trim, trim_chars, views_of};
use crate::ui::{UiMessage, UiState};

verus! {

/// The two tabs of the window.
#[derive(Clone, Copy, PartialEq, Eq, Structural, Debug)]
pub enum Tab {
    MouseProfiles,
    PointerScroll,
}

/// What the window shows and edits.  The scroll threshold is in
/// thousandths of a wheel step.
pub struct SettingsApp {
    pub active_tab: Tab,
    pub selected_profile: String,
    pub new_profile_name: String,
    pub new_profile_label: String,
    pub show_new_profile_dialog: bool,
    /// Button name to action id, for the selected profile.
    pub button_actions: StrMap<String>,
    pub dpi: u32,
    pub smart_shift_mode: String,
    pub invert_hscroll: bool,
    pub invert_vscroll: bool,
    pub hscroll_threshold_milli: u32,
    pub gesture_threshold: u32,
    pub gesture_deadzone: u32,
    pub gesture_timeout_ms: u32,
    pub language: String,
    pub start_at_login: bool,
    pub start_minimized: bool,
    pub debug_mode: bool,
}

/// The mappings of profile `name` in `cfg`, if it has that profile.
pub open spec fn shown_mappings(cfg: Config, name: Seq<char>) -> Option<Seq<(Seq<char>, Seq<char>)>> {
    if has_key(cfg.profiles.view(), name) {
        Some(string_entries(lookup(cfg.profiles.view(), name).unwrap().mappings.view()))
    } else {
        None
    }
}

/// The button mappings after showing profile `name`: that profile's, or
/// the ones shown before when it does not exist.
pub open spec fn mappings_after_reload(cfg: Config, name: Seq<char>, before: Seq<(Seq<char>, Seq<char>)>) -> Seq<(Seq<char>, Seq<char>)> {
    match shown_mappings(cfg, name) {
        Some(m) => m,
        None => before,
    }
}

/// A copy of the mappings of profile `name`, when `cfg` has it.
fn mappings_of(cfg: &Config, name: &str) -> (r: Option<StrMap<String>>)
    requires
        cfg.wf(),
    ensures
        match r {
            Some(m) => m.wf() && shown_mappings(*cfg, name@) == Some(string_entries(m.view())),
            None => shown_mappings(*cfg, name@) is None,
        },
{
    match cfg.profiles.get(name) {
        Some(p) => {
            proof {
                let s = cfg.profiles.view();
                let k = key_index(s, name@);
                assert(s[k].1.mappings.wf());
            }
            Some(copy_mappings(&p.mappings))
        },
        None => None,
    }
}

/// The window's title bar texts: the device, the battery level when known,
/// the DPI, and whether remapping is on.
pub fn status_bar(state: &UiState) -> (r: Vec<String>)
    ensures
        r@.len() == (if state.battery_pct is Some { 4int } else { 3int }),
        r@[0]@ == state.device_name@,
        r@[r@.len() - 2]@ == "DPI: "@ + crate::text::decimal(state.dpi as nat),
        r@[r@.len() - 1]@ == (if state.enabled { "Enabled"@ } else { "Disabled"@ }),
        state.battery_pct matches Some(p) ==> r@[1]@ == "Battery: "@ + crate::text::decimal(p as nat) + "%"@,
{
    let mut out: Vec<String> = Vec::new();
    out.push(state.device_name.clone());
    if let Some(p) = state.battery_pct {
        let mut t = chars_of("Battery: ");
        crate::text::push_decimal_padded(&mut t, p as u64, 0);
        crate::text::extend_str(&mut t, "%");
        proof {
            reveal_strlit("Battery: ");
            reveal_strlit("%");
        }
        out.push(string_of(&t));
    }
    let mut d = chars_of("DPI: ");
    crate::text::push_decimal_padded(&mut d, state.dpi as u64, 0);
    out.push(string_of(&d));
    let status: &str = if state.enabled { "Enabled" } else { "Disabled" };
    out.push(status.to_owned());
    out
}

impl SettingsApp {
    pub open spec fn wf(&self) -> bool {
        self.button_actions.wf()
    }

    /// The window as it opens on `cfg`: the active profile selected, its
    /// mappings shown, the settings' values.
    pub fn new(cfg: &Config) -> (r: Self)
        requires
            cfg.wf(),
        ensures
            r.wf(),
            r.active_tab == Tab::MouseProfiles,
            r.selected_profile@ == cfg.active_profile@,
            r.new_profile_name@.len() == 0,
            r.new_profile_label@.len() == 0,
            !r.show_new_profile_dialog,
            string_entries(r.button_actions.view()) == mappings_after_reload(*cfg, cfg.active_profile@, Seq::empty()),
            r.dpi == cfg.settings.dpi,
            r.smart_shift_mode@ == cfg.settings.smart_shift_mode@,
            r.invert_hscroll == cfg.settings.invert_hscroll,
            r.invert_vscroll == cfg.settings.invert_vscroll,
            r.hscroll_threshold_milli == cfg.settings.hscroll_threshold_milli,
            r.gesture_threshold == cfg.settings.gesture_threshold,
            r.gesture_deadzone == cfg.settings.gesture_deadzone,
            r.gesture_timeout_ms == cfg.settings.gesture_timeout_ms,
            r.language@ == cfg.settings.language@,
            r.start_at_login == cfg.settings.start_at_login,
            r.start_minimized == cfg.settings.start_minimized,
            r.debug_mode == cfg.settings.debug_mode,
    {
        let button_actions = match mappings_of(cfg, cfg.active_profile.as_str()) {
            Some(m) => m,
            None => {
                let m: StrMap<String> = StrMap::new();
                assert(string_entries(m.view()) =~= Seq::<(Seq<char>, Seq<char>)>::empty());
                m
            },
        };
        let s = &cfg.settings;
        SettingsApp {
            active_tab: Tab::MouseProfiles,
            selected_profile: cfg.active_profile.clone(),
            new_profile_name: String::new(),
            new_profile_label: String::new(),
            show_new_profile_dialog: false,
            button_actions,
            dpi: s.dpi,
            smart_shift_mode: s.smart_shift_mode.clone(),
            invert_hscroll: s.invert_hscroll,
            invert_vscroll: s.invert_vscroll,
            hscroll_threshold_milli: s.hscroll_threshold_milli,
            gesture_threshold: s.gesture_threshold,
            gesture_deadzone: s.gesture_deadzone,
            gesture_timeout_ms: s.gesture_timeout_ms,
            language: s.language.clone(),
            start_at_login: s.start_at_login,
            start_minimized: s.start_minimized,
            debug_mode: s.debug_mode,
        }
    }

    /// Shows the mappings of the selected profile again, as `cfg` has them;
    /// nothing changes when it has no such profile.
    pub fn reload_button_actions(&mut self, cfg: &Config)
        requires
            old(self).wf(),
            cfg.wf(),
        ensures
            final(self).wf(),
            string_entries(final(self).button_actions.view()) == mappings_after_reload(
                *cfg,
                old(self).selected_profile@,
                string_entries(old(self).button_actions.view()),
            ),
            *final(self) == (SettingsApp { button_actions: final(self).button_actions, ..*old(self) }),
    {
        match mappings_of(cfg, self.selected_profile.as_str()) {
            Some(m) => {
                self.button_actions = m;
            },
            None => {},
        }
    }

    /// The user picked profile `name`: it is selected, its mappings shown,
    /// and the engine is asked to switch to it.
    pub fn select_profile(&mut self, name: &str, cfg: &Config) -> (r: UiMessage)
        requires
            old(self).wf(),
            cfg.wf(),
        ensures
            final(self).wf(),
            r matches UiMessage::SwitchProfile(n) && n@ == name@,
            final(self).selected_profile@ == name@,
            string_entries(final(self).button_actions.view()) == mappings_after_reload(
                *cfg,
                name@,
                string_entries(old(self).button_actions.view()),
            ),
            *final(self) == (SettingsApp {
                selected_profile: final(self).selected_profile,
                button_actions: final(self).button_actions,
                ..*old(self)
            }),
    {
        self.selected_profile = name.to_owned();
        self.reload_button_actions(cfg);
        UiMessage::SwitchProfile(name.to_owned())
    }

    /// Opens the new-profile dialog with empty fields.
    pub fn open_new_profile_dialog(&mut self)
        ensures
            final(self).show_new_profile_dialog,
            final(self).new_profile_name@.len() == 0,
            final(self).new_profile_label@.len() == 0,
            *final(self) == (SettingsApp {
                show_new_profile_dialog: true,
                new_profile_name: final(self).new_profile_name,
                new_profile_label: final(self).new_profile_label,
                ..*old(self)
            }),
    {
        self.show_new_profile_dialog = true;
        self.new_profile_name = String::new();
        self.new_profile_label = String::new();
    }

    /// Closes the new-profile dialog without creating anything.
    pub fn cancel_new_profile(&mut self)
        ensures
            *final(self) == (SettingsApp { show_new_profile_dialog: false, ..*old(self) }),
    {
        self.show_new_profile_dialog = false;
    }

    /// The default profile cannot be deleted.
    pub fn can_delete(&self) -> (r: bool)
        ensures
            r == (self.selected_profile@ != "default"@),
    {
        !str_eq(self.selected_profile.as_str(), "default")
    }

    /// Deletes the selected profile: the engine is asked to delete it and
    /// the default profile is shown.  Nothing happens for the default one.
    pub fn delete_selected(&mut self, cfg: &Config) -> (r: Option<UiMessage>)
        requires
            old(self).wf(),
            cfg.wf(),
        ensures
            final(self).wf(),
            old(self).selected_profile@ == "default"@ ==> r is None && *final(self) == *old(self),
            old(self).selected_profile@ != "default"@ ==> {
                &&& r matches Some(UiMessage::DeleteProfile(n)) && n@ == old(self).selected_profile@
                &&& final(self).selected_profile@ == "default"@
                &&& string_entries(final(self).button_actions.view()) == mappings_after_reload(
                    *cfg,
                    "default"@,
                    string_entries(old(self).button_actions.view()),
                )
                &&& *final(self) == (SettingsApp {
                    selected_profile: final(self).selected_profile,
                    button_actions: final(self).button_actions,
                    ..*old(self)
                })
            },
    {
        if !self.can_delete() {
            return None;
        }
        let name = self.selected_profile.clone();
        self.selected_profile = "default".to_owned();
        proof {
            reveal_strlit("default");
        }
        self.reload_button_actions(cfg);
        Some(UiMessage::DeleteProfile(name))
    }

    /// Confirms the new-profile dialog.  The dialog closes; when the name
    /// (trimmed) is not empty the engine is asked to create the profile,
    /// labelled with the trimmed label and copying the selected profile,
    /// and the new profile is selected and shown as `cfg` has it.
    pub fn confirm_new_profile(&mut self, cfg: &Config) -> (r: Option<UiMessage>)
        requires
            old(self).wf(),
            cfg.wf(),
        ensures
            final(self).wf(),
            !final(self).show_new_profile_dialog,
            trim(old(self).new_profile_name@).len() == 0 ==> r is None
                && *final(self) == (SettingsApp { show_new_profile_dialog: false, ..*old(self) }),
            trim(old(self).new_profile_name@).len() > 0 ==> {
                &&& r matches Some(UiMessage::CreateProfile { name, label, copy_from: Some(src) })
                    && name@ == trim(old(self).new_profile_name@)
                    && label@ == trim(old(self).new_profile_label@)
                    && src@ == old(self).selected_profile@
                &&& final(self).selected_profile@ == trim(old(self).new_profile_name@)
                &&& string_entries(final(self).button_actions.view()) == mappings_after_reload(
                    *cfg,
                    trim(old(self).new_profile_name@),
                    string_entries(old(self).button_actions.view()),
                )
                &&& *final(self) == (SettingsApp {
                    selected_profile: final(self).selected_profile,
                    button_actions: final(self).button_actions,
                    show_new_profile_dialog: false,
                    ..*old(self)
                })
            },
    {
        let n = trim_chars(&chars_of(self.new_profile_name.as_str()));
        let l = trim_chars(&chars_of(self.new_profile_label.as_str()));
        self.show_new_profile_dialog = false;
        if n.len() == 0 {
            return None;
        }
        let name = string_of(&n);
        let label = string_of(&l);
        let copy_from = Some(self.selected_profile.clone());
        self.selected_profile = string_of(&n);
        self.reload_button_actions(cfg);
        Some(UiMessage::CreateProfile { name, label, copy_from })
    }

    /// The action shown for `button`: its mapping, or "none".
    pub fn button_action(&self, button: &str) -> (r: String)
        requires
            self.wf(),
        ensures
            r@ == (match lookup(self.button_actions.view(), button@) {
                Some(a) => a@,
                None => "none"@,
            }),
    {
        match self.button_actions.get(button) {
            Some(a) => a.clone(),
            None => "none".to_owned(),
        }
    }

    /// The user picked `action` for `button`: when it differs from the one
    /// shown, it is shown and the engine is asked to map it in the selected
    /// profile.
    pub fn set_button_action(&mut self, button: &str, action: &str) -> (r: Option<UiMessage>)
        requires
            old(self).wf(),
        ensures
            final(self).wf(),
            ({
                let current = match lookup(old(self).button_actions.view(), button@) {
                    Some(a) => a@,
                    None => "none"@,
                };
                if action@ == current {
                    r is None && *final(self) == *old(self)
                } else {
                    &&& r matches Some(UiMessage::SetMapping { profile, button: b, action_id })
                        && profile@ == old(self).selected_profile@ && b@ == button@ && action_id@ == action@
                    &&& lookup(final(self).button_actions.view(), button@) matches Some(a) && a@ == action@
                    &&& final(self).button_actions.view() == with_entry(
                        old(self).button_actions.view(),
                        button@,
                        lookup(final(self).button_actions.view(), button@).unwrap(),
                    )
                    &&& *final(self) == (SettingsApp { button_actions: final(self).button_actions, ..*old(self) })
                }
            }),
    {
        let current = self.button_action(button);
        if str_eq(current.as_str(), action) {
            return None;
        }
        let ghost before = self.button_actions.view();
        let a = action.to_owned();
        let ghost ga = a;
        self.button_actions.insert(button.to_owned(), a);
        proof {
            crate::config::lemma_with_entry(before, button@, ga);
        }
        Some(UiMessage::SetMapping {
            profile: self.selected_profile.clone(),
            button: button.to_owned(),
            action_id: action.to_owned(),
        })
    }

    /// DPI slider: a new value is kept and sent.
    pub fn set_dpi(&mut self, v: u32) -> (r: Option<UiMessage>)
        ensures
            *final(self) == (SettingsApp { dpi: v, ..*old(self) }),
            r == (if v != old(self).dpi { Some(UiMessage::SetDpi(v)) } else { None }),
    {
        if v == self.dpi {
            return None;
        }
        self.dpi = v;
        Some(UiMessage::SetDpi(v))
    }

    /// Scroll-wheel mode buttons: a new mode is kept and sent.
    pub fn set_smart_shift(&mut self, mode: &str) -> (r: Option<UiMessage>)
        ensures
            final(self).smart_shift_mode@ == mode@,
            *final(self) == (SettingsApp { smart_shift_mode: final(self).smart_shift_mode, ..*old(self) }),
            mode@ == old(self).smart_shift_mode@ ==> r is None,
            mode@ != old(self).smart_shift_mode@ ==> (r matches Some(UiMessage::SetSmartShift(m)) && m@ == mode@),
    {
        if str_eq(mode, self.smart_shift_mode.as_str()) {
            return None;
        }
        self.smart_shift_mode = mode.to_owned();
        Some(UiMessage::SetSmartShift(mode.to_owned()))
    }

    /// Horizontal-scroll inversion check box.
    pub fn set_invert_hscroll(&mut self, v: bool) -> (r: Option<UiMessage>)
        ensures
            *final(self) == (SettingsApp { invert_hscroll: v, ..*old(self) }),
            r == (if v != old(self).invert_hscroll { Some(UiMessage::SetInvertHScroll(v)) } else { None }),
    {
        if v == self.invert_hscroll {
            return None;
        }
        self.invert_hscroll = v;
        Some(UiMessage::SetInvertHScroll(v))
    }

    /// Vertical-scroll inversion check box.
    pub fn set_invert_vscroll(&mut self, v: bool) -> (r: Option<UiMessage>)
        ensures
            *final(self) == (SettingsApp { invert_vscroll: v, ..*old(self) }),
            r == (if v != old(self).invert_vscroll { Some(UiMessage::SetInvertVScroll(v)) } else { None }),
    {
        if v == self.invert_vscroll {
            return None;
        }
        self.invert_vscroll = v;
        Some(UiMessage::SetInvertVScroll(v))
    }

    /// Scroll-threshold slider: the value is kept; it is sent when it moved
    /// by more than a thousandth of a step.
    pub fn set_hscroll_threshold_milli(&mut self, v: u32) -> (r: Option<UiMessage>)
        ensures
            *final(self) == (SettingsApp { hscroll_threshold_milli: v, ..*old(self) }),
            r == (if v > old(self).hscroll_threshold_milli + 1 || v + 1 < old(self).hscroll_threshold_milli {
                Some(UiMessage::SetHScrollThreshold(v))
            } else {
                None
            }),
    {
        let old_v = self.hscroll_threshold_milli;
        self.hscroll_threshold_milli = v;
        if (v > old_v && v - old_v > 1) || (old_v > v && old_v - v > 1) {
            Some(UiMessage::SetHScrollThreshold(v))
        } else {
            None
        }
    }

    /// Language choice: a new language is kept and sent.
    pub fn set_language(&mut self, code: &str) -> (r: Option<UiMessage>)
        ensures
            final(self).language@ == code@,
            *final(self) == (SettingsApp { language: final(self).language, ..*old(self) }),
            code@ == old(self).language@ ==> r is None,
            code@ != old(self).language@ ==> (r matches Some(UiMessage::SetLanguage(c)) && c@ == code@),
    {
        if str_eq(code, self.language.as_str()) {
            return None;
        }
        self.language = code.to_owned();
        Some(UiMessage::SetLanguage(code.to_owned()))
    }

    /// Start-at-login check box.
    pub fn set_start_at_login(&mut self, v: bool) -> (r: Option<UiMessage>)
        ensures
            *final(self) == (SettingsApp { start_at_login: v, ..*old(self) }),
            r == (if v != old(self).start_at_login { Some(UiMessage::SetStartAtLogin(v)) } else { None }),
    {
        if v == self.start_at_login {
            return None;
        }
        self.start_at_login = v;
        Some(UiMessage::SetStartAtLogin(v))
    }

    /// Start-minimized check box.
    pub fn set_start_minimized(&mut self, v: bool) -> (r: Option<UiMessage>)
        ensures
            *final(self) == (SettingsApp { start_minimized: v, ..*old(self) }),
            r == (if v != old(self).start_minimized { Some(UiMessage::SetStartMinimized(v)) } else { None }),
    {
        if v == self.start_minimized {
            return None;
        }
        self.start_minimized = v;
        Some(UiMessage::SetStartMinimized(v))
    }

    /// Debug-mode check box.
    pub fn set_debug_mode(&mut self, v: bool) -> (r: Option<UiMessage>)
        ensures
            *final(self) == (SettingsApp { debug_mode: v, ..*old(self) }),
            r == (if v != old(self).debug_mode { Some(UiMessage::SetDebugMode(v)) } else { None }),
    {
        if v == self.debug_mode {
            return None;
        }
        self.debug_mode = v;
        Some(UiMessage::SetDebugMode(v))
    }
}

/// The label a profile is listed under: its label, or its name when the
/// label is empty.
pub open spec fn listed_label(cfg: Config, name: Seq<char>) -> Seq<char> {
    let l = lookup(cfg.profiles.view(), name).unwrap().label@;
    if l.len() == 0 { name } else { l }
}

/// The names of a profile list, in order.
pub open spec fn profile_names(s: Seq<(Seq<char>, crate::config::Profile)>) -> Seq<Seq<char>> {
    s.map_values(|e: (Seq<char>, crate::config::Profile)| e.0)
}

/// The profiles offered by the profile selector: (name, label) pairs, by
/// increasing name.
pub fn profile_choices(cfg: &Config) -> (r: Vec<(String, String)>)
    requires
        cfg.wf(),
    ensures
        r@.len() == cfg.profiles.view().len(),
        lex_sorted(r@.map_values(|p: (String, String)| p.0@)),
        forall|k: Seq<char>| has_key(cfg.profiles.view(), k) <==> exists|i: int| 0 <= i < r@.len() && #[trigger] r@[i].0@ == k,
        forall|i: int| 0 <= i < r@.len() ==> #[trigger] r@[i].1@ == listed_label(*cfg, r@[i].0@),
{
    let ghost s = cfg.profiles.view();
    let mut names: Vec<String> = Vec::new();
    let n = cfg.profiles.len();
    let mut i: usize = 0;
    while i < n
        invariant
            n == s.len(),
            s == cfg.profiles.view(),
            cfg.wf(),
            i <= n,
            views_of(names@) == profile_names(s.take(i as int)),
        decreases n - i,
    {
        let (k, _) = cfg.profiles.entry(i);
        let ghost before = names@;
        names.push(k.clone());
        proof {
            assert(views_of(names@) =~= views_of(before).push(k@));
            assert(s.take(i + 1) =~= s.take(i as int).push(s[i as int]));
            assert(profile_names(s.take(i + 1)) =~= profile_names(s.take(i as int)).push(s[i as int].0));
        }
        i += 1;
    }
    proof {
        assert(s.take(n as int) =~= s);
        let v = views_of(names@);
        assert forall|a: int, b: int| 0 <= a < b < v.len() implies v[a] != v[b] by {
            assert(v[a] == s[a].0 && v[b] == s[b].0);
        }
    }
    let ghost name_views = views_of(names@);
    let sorted = sort_strings(names);
    proof {
        assert forall|x: Seq<char>| views_of(sorted@).contains(x) implies has_key(s, x) by {
            assert(name_views.contains(x));
            let k = choose|k: int| 0 <= k < name_views.len() && name_views[k] == x;
            assert(s[k].0 == x);
        }
    }
    let mut out: Vec<(String, String)> = Vec::new();
    let mut j: usize = 0;
    while j < sorted.len()
        invariant
            cfg.wf(),
            s == cfg.profiles.view(),
            j <= sorted@.len(),
            out@.len() == j,
            forall|x: Seq<char>| views_of(sorted@).contains(x) ==> has_key(s, x),
            forall|i: int| 0 <= i < j ==> #[trigger] out@[i].0@ == sorted@[i]@,
            forall|i: int| 0 <= i < j ==> #[trigger] out@[i].1@ == listed_label(*cfg, out@[i].0@),
        decreases sorted.len() - j,
    {
        let name = sorted[j].clone();
        proof {
            assert(views_of(sorted@)[j as int] == sorted@[j as int]@);
            assert(views_of(sorted@).contains(sorted@[j as int]@));
        }
        let label = match cfg.profiles.get(name.as_str()) {
            Some(p) => {
                if chars_of(p.label.as_str()).len() == 0 {
                    name.clone()
                } else {
                    p.label.clone()
                }
            },
            None => name.clone(),
        };
        out.push((name, label));
        j += 1;
    }
    proof {
        let vs = views_of(sorted@);
        assert(out@.map_values(|p: (String, String)| p.0@) =~= vs) by {
            assert forall|i: int| 0 <= i < vs.len() implies out@.map_values(|p: (String, String)| p.0@)[i] == vs[i] by {
                assert(out@[i].0@ == sorted@[i]@);
            }
        }
        assert forall|k: Seq<char>| has_key(s, k) <==> exists|i: int| 0 <= i < out@.len() && #[trigger] out@[i].0@ == k by {
            if has_key(s, k) {
                let ki = key_index(s, k);
                assert(name_views[ki] == k);
                assert(vs.contains(k));
                let i = choose|i: int| 0 <= i < vs.len() && vs[i] == k;
                assert(out@[i].0@ == k);
            }
            if exists|i: int| 0 <= i < out@.len() && #[trigger] out@[i].0@ == k {
                let i = choose|i: int| 0 <= i < out@.len() && #[trigger] out@[i].0@ == k;
                assert(vs[i] == k);
            }
        }
    }
    out
}

} // verus!
