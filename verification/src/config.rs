//! Configuration model: profiles of button → action mappings, settings,
//! defaults, migration of older files, and the profile operations the UI
//! and the engine perform.  Reading and writing the JSON file happens
//! outside the library.

use vstd::prelude::*;
use crate::text::{chars_eq, chars_of, str_eq, str_lower, to_lowercase};

verus! {

pub const CURRENT_VERSION: u32 = 6;

// ---------------------------------------------------------------------------
// String-keyed maps
// ---------------------------------------------------------------------------

/// A map from strings to values, kept as a list of distinct keys in the
/// order they were first inserted.
pub struct StrMap<V> {
    entries: Vec<(String, V)>,
}

pub open spec fn has_key<V>(s: Seq<(Seq<char>, V)>, k: Seq<char>) -> bool {
    exists|i: int| 0 <= i < s.len() && #[trigger] s[i].0 == k
}

pub open spec fn key_index<V>(s: Seq<(Seq<char>, V)>, k: Seq<char>) -> int {
    choose|i: int| 0 <= i < s.len() && #[trigger] s[i].0 == k
}

/// The value stored under `k`, if any.
pub open spec fn lookup<V>(s: Seq<(Seq<char>, V)>, k: Seq<char>) -> Option<V> {
    if has_key(s, k) {
        Some(s[key_index(s, k)].1)
    } else {
        None
    }
}

pub open spec fn keys_distinct<V>(s: Seq<(Seq<char>, V)>) -> bool {
    forall|i: int, j: int| 0 <= i < s.len() && 0 <= j < s.len() && i != j ==> #[trigger] s[i].0 != #[trigger] s[j].0
}

/// `s` with `k` bound to `v`: updated in place if present, appended if not.
pub open spec fn with_entry<V>(s: Seq<(Seq<char>, V)>, k: Seq<char>, v: V) -> Seq<(Seq<char>, V)> {
    if has_key(s, k) {
        s.update(key_index(s, k), (k, v))
    } else {
        s.push((k, v))
    }
}

/// `s` without the entry for `k`.
pub open spec fn without_key<V>(s: Seq<(Seq<char>, V)>, k: Seq<char>) -> Seq<(Seq<char>, V)> {
    if has_key(s, k) {
        s.remove(key_index(s, k))
    } else {
        s
    }
}

pub proof fn lemma_key_index<V>(s: Seq<(Seq<char>, V)>, k: Seq<char>, i: int)
    requires
        keys_distinct(s),
        0 <= i < s.len(),
        s[i].0 == k,
    ensures
        has_key(s, k),
        key_index(s, k) == i,
        lookup(s, k) == Some(s[i].1),
{
}

/// Binding a key makes it map to the value and leaves every other key as
/// it was; keys stay distinct.
pub proof fn lemma_with_entry<V>(s: Seq<(Seq<char>, V)>, k: Seq<char>, v: V)
    requires
        keys_distinct(s),
    ensures
        keys_distinct(with_entry(s, k, v)),
        lookup(with_entry(s, k, v), k) == Some(v),
        forall|k2: Seq<char>| k2 != k ==> #[trigger] lookup(with_entry(s, k, v), k2) == lookup(s, k2),
        forall|k2: Seq<char>| #[trigger] has_key(with_entry(s, k, v), k2) <==> (has_key(s, k2) || k2 == k),
{
    let t = with_entry(s, k, v);
    let n = if has_key(s, k) { key_index(s, k) } else { s.len() as int };
    assert(t[n].0 == k);
    lemma_key_index(t, k, n);
    assert forall|k2: Seq<char>| k2 != k implies #[trigger] lookup(t, k2) == lookup(s, k2) by {
        if has_key(s, k2) {
            let j = key_index(s, k2);
            assert(t[j] == s[j]);
            lemma_key_index(t, k2, j);
        } else {
            if has_key(t, k2) {
                let j = key_index(t, k2);
                assert(s[j].0 == k2);
            }
        }
    }
    assert forall|k2: Seq<char>| #[trigger] has_key(t, k2) <==> (has_key(s, k2) || k2 == k) by {
        if has_key(s, k2) && k2 != k {
            let j = key_index(s, k2);
            assert(t[j] == s[j]);
        }
        if has_key(t, k2) && k2 != k {
            let j = key_index(t, k2);
            assert(s[j].0 == k2);
        }
    }
}

/// Removing a key drops exactly that key; keys stay distinct.
pub proof fn lemma_without_key<V>(s: Seq<(Seq<char>, V)>, k: Seq<char>)
    requires
        keys_distinct(s),
    ensures
        keys_distinct(without_key(s, k)),
        lookup(without_key(s, k), k) is None,
        forall|k2: Seq<char>| k2 != k ==> #[trigger] lookup(without_key(s, k), k2) == lookup(s, k2),
{
    let t = without_key(s, k);
    if has_key(s, k) {
        let n = key_index(s, k);
        assert forall|i: int, j: int| 0 <= i < t.len() && 0 <= j < t.len() && i != j implies #[trigger] t[i].0 != #[trigger] t[j].0 by {
            let ii = if i < n { i } else { i + 1 };
            let jj = if j < n { j } else { j + 1 };
            assert(t[i] == s[ii] && t[j] == s[jj]);
        }
        if has_key(t, k) {
            let j = key_index(t, k);
            let jj = if j < n { j } else { j + 1 };
            assert(t[j] == s[jj]);
        }
        assert forall|k2: Seq<char>| k2 != k implies #[trigger] lookup(t, k2) == lookup(s, k2) by {
            if has_key(s, k2) {
                let j = key_index(s, k2);
                let jt = if j < n { j } else { j - 1 };
                assert(t[jt] == s[j]);
                lemma_key_index(t, k2, jt);
            } else if has_key(t, k2) {
                let j = key_index(t, k2);
                let jj = if j < n { j } else { j + 1 };
                assert(t[j] == s[jj]);
            }
        }
    }
}

impl<V> StrMap<V> {
    /// The entries in order, keys by their characters.
    pub closed spec fn view(&self) -> Seq<(Seq<char>, V)> {
        self.entries@.map_values(|e: (String, V)| (e.0@, e.1))
    }

    /// Keys are distinct.
    pub open spec fn wf(&self) -> bool {
        keys_distinct(self.view())
    }

    /// An empty map.
    pub fn new() -> (r: StrMap<V>)
        ensures
            r.view() == Seq::<(Seq<char>, V)>::empty(),
            r.wf(),
    {
        let r = StrMap { entries: Vec::new() };
        assert(r.view() =~= Seq::<(Seq<char>, V)>::empty());
        r
    }

    /// Number of entries.
    pub fn len(&self) -> (r: usize)
        ensures
            r == self.view().len(),
    {
        self.entries.len()
    }

    fn find(&self, key: &str) -> (r: Option<usize>)
        requires
            self.wf(),
        ensures
            match r {
                Some(i) => i < self.view().len() && self.view()[i as int].0 == key@ && key_index(self.view(), key@) == i
                    && has_key(self.view(), key@),
                None => !has_key(self.view(), key@),
            },
    {
        let ghost s = self.view();
        let mut i: usize = 0;
        while i < self.entries.len()
            invariant
                s == self.view(),
                keys_distinct(s),
                i <= self.entries@.len(),
                s.len() == self.entries@.len(),
                forall|j: int| 0 <= j < i ==> #[trigger] s[j].0 != key@,
            decreases self.entries.len() - i,
        {
            assert(s[i as int].0 == self.entries@[i as int].0@);
            if str_eq(self.entries[i].0.as_str(), key) {
                proof {
                    lemma_key_index(s, key@, i as int);
                }
                return Some(i);
            }
            i += 1;
        }
        None
    }

    /// The value under `key`.
    pub fn get(&self, key: &str) -> (r: Option<&V>)
        requires
            self.wf(),
        ensures
            match r {
                Some(v) => lookup(self.view(), key@) == Some(*v),
                None => lookup(self.view(), key@) is None,
            },
    {
        match self.find(key) {
            Some(i) => {
                assert(self.view()[i as int].1 == self.entries@[i as int].1);
                Some(&self.entries[i].1)
            },
            None => None,
        }
    }

    /// Whether `key` has an entry.
    pub fn contains_key(&self, key: &str) -> (r: bool)
        requires
            self.wf(),
        ensures
            r == has_key(self.view(), key@),
    {
        self.find(key).is_some()
    }

    /// Binds `key` to `value`, in place when the key is present.
    pub fn insert(&mut self, key: String, value: V)
        requires
            old(self).wf(),
        ensures
            final(self).wf(),
            final(self).view() == with_entry(old(self).view(), key@, value),
    {
        let ghost s = self.view();
        let ghost k = key@;
        proof {
            lemma_with_entry(s, k, value);
        }
        match self.find(key.as_str()) {
            Some(i) => {
                let ghost v = value;
                self.entries.set(i, (key, value));
                assert(self.view() =~= s.update(i as int, (k, v)));
            },
            None => {
                let ghost v = value;
                self.entries.push((key, value));
                assert(self.view() =~= s.push((k, v)));
            },
        }
    }

    /// Removes the entry for `key`, giving back its value.
    pub fn remove(&mut self, key: &str) -> (r: Option<V>)
        requires
            old(self).wf(),
        ensures
            final(self).wf(),
            final(self).view() == without_key(old(self).view(), key@),
            r == lookup(old(self).view(), key@),
    {
        let ghost s = self.view();
        proof {
            lemma_without_key(s, key@);
        }
        match self.find(key) {
            Some(i) => {
                let (_, v) = self.entries.remove(i);
                assert(self.view() =~= s.remove(i as int));
                Some(v)
            },
            None => None,
        }
    }

    /// The key and value of entry `i`.
    pub fn entry(&self, i: usize) -> (r: (&String, &V))
        requires
            i < self.view().len(),
        ensures
            r.0@ == self.view()[i as int].0,
            *r.1 == self.view()[i as int].1,
    {
        (&self.entries[i].0, &self.entries[i].1)
    }

    /// The value of entry `i`, for modification.
    pub fn value_mut(&mut self, i: usize) -> (r: &mut V)
        requires
            i < old(self).view().len(),
        ensures
            *r == old(self).view()[i as int].1,
            final(self).view() == old(self).view().update(i as int, (old(self).view()[i as int].0, *final(r))),
    {
        let ghost s = self.view();
        let r = &mut self.entries[i].1;
        r
    }
}

// ---------------------------------------------------------------------------
// Button names
// ---------------------------------------------------------------------------

pub open spec fn spec_button_names() -> Seq<Seq<char>> {
    seq!["middle"@, "gesture"@, "xbutton1"@, "xbutton2"@, "hscroll_left"@, "hscroll_right"@, "mode_shift"@]
}

pub open spec fn spec_gesture_direction_buttons() -> Seq<Seq<char>> {
    seq!["gesture_left"@, "gesture_right"@, "gesture_up"@, "gesture_down"@]
}

fn views_of(v: &Vec<&'static str>) -> (r: Ghost<Seq<Seq<char>>>)
    ensures
        r@ == v@.map_values(|s: &'static str| s@),
{
    Ghost(v@.map_values(|s: &'static str| s@))
}

/// The physical buttons a profile can map.
pub fn button_names() -> (r: Vec<&'static str>)
    ensures
        r@.map_values(|s: &'static str| s@) == spec_button_names(),
{
    let r = vec!["middle", "gesture", "xbutton1", "xbutton2", "hscroll_left", "hscroll_right", "mode_shift"];
    assert(r@.map_values(|s: &'static str| s@) =~= spec_button_names());
    r
}

/// The four gesture swipe directions a profile can map.
pub fn gesture_direction_buttons() -> (r: Vec<&'static str>)
    ensures
        r@.map_values(|s: &'static str| s@) == spec_gesture_direction_buttons(),
{
    let r = vec!["gesture_left", "gesture_right", "gesture_up", "gesture_down"];
    assert(r@.map_values(|s: &'static str| s@) =~= spec_gesture_direction_buttons());
    r
}

/// All buttons that appear in a profile's mappings: the physical buttons,
/// then the swipe directions.
pub fn profile_button_names() -> (r: Vec<&'static str>)
    ensures
        r@.map_values(|s: &'static str| s@) == spec_button_names() + spec_gesture_direction_buttons(),
{
    let mut v = button_names();
    let mut g = gesture_direction_buttons();
    let ghost a = v@;
    let ghost b = g@;
    v.append(&mut g);
    assert(v@ == a + b);
    assert(v@.map_values(|s: &'static str| s@) =~= spec_button_names() + spec_gesture_direction_buttons());
    v
}

// ---------------------------------------------------------------------------
// Data types
// ---------------------------------------------------------------------------

/// One profile: a label, the applications it applies to, and its mappings
/// from button names to action ids.
pub struct Profile {
    pub label: String,
    pub apps: Vec<String>,
    pub mappings: StrMap<String>,
}

/// Application settings.  The horizontal-scroll threshold is kept in
/// thousandths of a wheel step; layout overrides are kept as JSON text.
pub struct Settings {
    pub start_minimized: bool,
    pub start_at_login: bool,
    pub hscroll_threshold_milli: u32,
    pub invert_hscroll: bool,
    pub invert_vscroll: bool,
    pub dpi: u32,
    pub smart_shift_mode: String,
    pub gesture_threshold: u32,
    pub gesture_deadzone: u32,
    pub gesture_timeout_ms: u32,
    pub gesture_cooldown_ms: u32,
    pub appearance_mode: String,
    pub debug_mode: bool,
    pub device_layout_overrides: StrMap<String>,
    pub language: String,
}

/// The whole configuration.
pub struct Config {
    pub version: u32,
    pub active_profile: String,
    pub profiles: StrMap<Profile>,
    pub settings: Settings,
}

/// Every map in the configuration has distinct keys.
pub open spec fn profiles_wf(s: Seq<(Seq<char>, Profile)>) -> bool {
    &&& keys_distinct(s)
    &&& forall|i: int| 0 <= i < s.len() ==> (#[trigger] s[i]).1.mappings.wf()
}

impl Config {
    pub open spec fn wf(&self) -> bool {
        &&& self.profiles.wf()
        &&& profiles_wf(self.profiles.view())
        &&& self.settings.device_layout_overrides.wf()
    }
}

// ---------------------------------------------------------------------------
// Defaults
// ---------------------------------------------------------------------------

pub fn default_version() -> (r: u32)
    ensures
        r == CURRENT_VERSION,
{
    CURRENT_VERSION
}

pub fn default_active_profile() -> (r: String)
    ensures
        r@ == "default"@,
{
    "default".to_owned()
}

pub fn bool_true() -> (r: bool)
    ensures
        r,
{
    true
}

pub fn default_hscroll_threshold_milli() -> (r: u32)
    ensures
        r == 1000,
{
    1000
}

pub fn default_dpi() -> (r: u32)
    ensures
        r == 1000,
{
    1000
}

pub fn default_smart_shift_mode() -> (r: String)
    ensures
        r@ == "ratchet"@,
{
    "ratchet".to_owned()
}

pub fn default_gesture_threshold() -> (r: u32)
    ensures
        r == 50,
{
    50
}

pub fn default_gesture_deadzone() -> (r: u32)
    ensures
        r == 40,
{
    40
}

pub fn default_gesture_timeout_ms() -> (r: u32)
    ensures
        r == 3000,
{
    3000
}

pub fn default_gesture_cooldown_ms() -> (r: u32)
    ensures
        r == 500,
{
    500
}

pub fn default_appearance_mode() -> (r: String)
    ensures
        r@ == "system"@,
{
    "system".to_owned()
}

pub fn default_language() -> (r: String)
    ensures
        r@ == "en"@,
{
    "en".to_owned()
}

pub open spec fn spec_default_mappings() -> Seq<(Seq<char>, Seq<char>)> {
    seq![
        ("middle"@, "none"@),
        ("gesture"@, "none"@),
        ("gesture_left"@, "alt_tab"@),
        ("gesture_right"@, "alt_tab"@),
        ("gesture_up"@, "none"@),
        ("gesture_down"@, "none"@),
        ("xbutton1"@, "alt_tab"@),
        ("xbutton2"@, "browser_forward"@),
        ("hscroll_left"@, "browser_back"@),
        ("hscroll_right"@, "browser_forward"@),
        ("mode_shift"@, "none"@),
    ]
}

/// The views of a string map's values.
pub open spec fn string_entries(s: Seq<(Seq<char>, String)>) -> Seq<(Seq<char>, Seq<char>)> {
    s.map_values(|e: (Seq<char>, String)| (e.0, e.1@))
}

fn push_mapping(m: &mut StrMap<String>, k: &str, v: &str)
    requires
        old(m).wf(),
        !has_key(string_entries(old(m).view()), k@),
    ensures
        final(m).wf(),
        string_entries(final(m).view()) == string_entries(old(m).view()).push((k@, v@)),
        forall|j: Seq<char>|
            #[trigger] has_key(string_entries(final(m).view()), j) == (has_key(
                string_entries(old(m).view()),
                j,
            ) || j == k@),
{
    let ghost s = m.view();
    proof {
        lemma_string_entries_keys(s, k@);
    }
    m.insert(k.to_owned(), v.to_owned());
    assert(string_entries(m.view()) =~= string_entries(s).push((k@, v@)));
    assert forall|j: Seq<char>|
        #[trigger] has_key(string_entries(m.view()), j) == (has_key(string_entries(s), j) || j
            == k@) by {
        let t = string_entries(s);
        let u = string_entries(m.view());
        if has_key(u, j) {
            let i = key_index(u, j);
            if i < t.len() {
                assert(t[i].0 == j);
            }
        }
        if has_key(t, j) {
            let i = key_index(t, j);
            assert(u[i].0 == j);
        }
        if j == k@ {
            assert(u[t.len() as int].0 == j);
        }
    }
}

/// The mappings of a fresh profile.
pub fn default_mappings() -> (r: StrMap<String>)
    ensures
        r.wf(),
        string_entries(r.view()) == spec_default_mappings(),
{
    let mut m: StrMap<String> = StrMap::new();
    assert(string_entries(m.view()) =~= Seq::<(Seq<char>, Seq<char>)>::empty());
    assert(forall|j: Seq<char>| !has_key(#[trigger] string_entries(m.view()), j));
    proof {
        reveal_strlit("middle");
        reveal_strlit("gesture");
        reveal_strlit("gesture_left");
        reveal_strlit("gesture_right");
        reveal_strlit("gesture_up");
        reveal_strlit("gesture_down");
        reveal_strlit("xbutton1");
        reveal_strlit("xbutton2");
        reveal_strlit("hscroll_left");
        reveal_strlit("hscroll_right");
        reveal_strlit("mode_shift");
    }
    // Every key differs from the others in its length or in one character.
    assert("middle"@.len() == 6 && "gesture"@.len() == 7 && "gesture_left"@.len() == 12);
    assert("gesture_right"@.len() == 13 && "gesture_up"@.len() == 10 && "gesture_down"@.len()
        == 12);
    assert("xbutton1"@.len() == 8 && "xbutton2"@.len() == 8 && "hscroll_left"@.len() == 12);
    assert("hscroll_right"@.len() == 13 && "mode_shift"@.len() == 10);
    assert("gesture_left"@[8] != "gesture_down"@[8]);
    assert("gesture_left"@[0] != "hscroll_left"@[0] && "gesture_down"@[0] != "hscroll_left"@[0]);
    assert("gesture_right"@[0] != "hscroll_right"@[0]);
    assert("gesture_up"@[0] != "mode_shift"@[0]);
    assert("xbutton1"@[7] != "xbutton2"@[7]);
    push_mapping(&mut m, "middle", "none");
    push_mapping(&mut m, "gesture", "none");
    push_mapping(&mut m, "gesture_left", "alt_tab");
    push_mapping(&mut m, "gesture_right", "alt_tab");
    push_mapping(&mut m, "gesture_up", "none");
    push_mapping(&mut m, "gesture_down", "none");
    push_mapping(&mut m, "xbutton1", "alt_tab");
    push_mapping(&mut m, "xbutton2", "browser_forward");
    push_mapping(&mut m, "hscroll_left", "browser_back");
    push_mapping(&mut m, "hscroll_right", "browser_forward");
    push_mapping(&mut m, "mode_shift", "none");
    assert(string_entries(m.view()) =~= spec_default_mappings());
    m
}

/// The profile every configuration keeps.
pub open spec fn is_default_profile(p: Profile) -> bool {
    &&& p.label@ == "Default (All Apps)"@
    &&& p.apps@.len() == 0
    &&& p.mappings.wf()
    &&& string_entries(p.mappings.view()) == spec_default_mappings()
}

fn default_profile() -> (r: Profile)
    ensures
        is_default_profile(r),
{
    Profile { label: "Default (All Apps)".to_owned(), apps: Vec::new(), mappings: default_mappings() }
}

/// Just the default profile.
pub fn default_profiles() -> (r: StrMap<Profile>)
    ensures
        r.wf(),
        profiles_wf(r.view()),
        r.view().len() == 1,
        r.view()[0].0 == "default"@,
        is_default_profile(r.view()[0].1),
{
    let mut m: StrMap<Profile> = StrMap::new();
    m.insert("default".to_owned(), default_profile());
    m
}

impl Default for Settings {
    fn default() -> (r: Self)
        ensures
            r.hscroll_threshold_milli == 1000,
            r.dpi == 1000,
            r.smart_shift_mode@ == "ratchet"@,
            r.gesture_threshold == 50,
            r.gesture_deadzone == 40,
            r.gesture_timeout_ms == 3000,
            r.gesture_cooldown_ms == 500,
            r.appearance_mode@ == "system"@,
            r.language@ == "en"@,
            !r.start_minimized && !r.start_at_login && !r.invert_hscroll && !r.invert_vscroll && !r.debug_mode,
            r.device_layout_overrides.wf(),
            r.device_layout_overrides.view().len() == 0,
    {
        Settings {
            start_minimized: false,
            start_at_login: false,
            hscroll_threshold_milli: 1000,
            invert_hscroll: false,
            invert_vscroll: false,
            dpi: 1000,
            smart_shift_mode: "ratchet".to_owned(),
            gesture_threshold: 50,
            gesture_deadzone: 40,
            gesture_timeout_ms: 3000,
            gesture_cooldown_ms: 500,
            appearance_mode: "system".to_owned(),
            debug_mode: false,
            device_layout_overrides: StrMap::new(),
            language: "en".to_owned(),
        }
    }
}

impl Default for Config {
    fn default() -> (r: Self)
        ensures
            r.wf(),
            r.version == CURRENT_VERSION,
            r.active_profile@ == "default"@,
            r.profiles.view().len() == 1,
            r.profiles.view()[0].0 == "default"@,
            is_default_profile(r.profiles.view()[0].1),
            r.settings.dpi == 1000,
            r.settings.language@ == "en"@,
    {
        Config {
            version: CURRENT_VERSION,
            active_profile: "default".to_owned(),
            profiles: default_profiles(),
            settings: Settings::default(),
        }
    }
}

// ---------------------------------------------------------------------------
// Migration
// ---------------------------------------------------------------------------

/// Mapping keys added by a migration step, with the value "none".
pub open spec fn with_default_none(s: Seq<(Seq<char>, String)>, keys: Seq<Seq<char>>) -> Seq<(Seq<char>, Seq<char>)>
    decreases keys.len(),
{
    if keys.len() == 0 {
        string_entries(s)
    } else {
        let init = with_default_none(s, keys.drop_last());
        if has_key(init, keys.last()) { init } else { init.push((keys.last(), "none"@)) }
    }
}

/// The keys a profile's mappings gain when migrating from `version`.
pub open spec fn migration_keys(version: u32) -> Seq<Seq<char>> {
    (if version < 2 { spec_gesture_direction_buttons() } else { Seq::empty() })
        + (if version < 3 { seq!["mode_shift"@] } else { Seq::empty() })
}

proof fn lemma_string_entries_keys(s: Seq<(Seq<char>, String)>, k: Seq<char>)
    ensures
        has_key(string_entries(s), k) == has_key(s, k),
        keys_distinct(string_entries(s)) == keys_distinct(s),
{
    let t = string_entries(s);
    if has_key(s, k) {
        let i = key_index(s, k);
        assert(t[i].0 == k);
    }
    if has_key(t, k) {
        let i = key_index(t, k);
        assert(s[i].0 == k);
    }
    assert(keys_distinct(t) == keys_distinct(s)) by {
        if keys_distinct(s) {
            assert forall|i: int, j: int| 0 <= i < t.len() && 0 <= j < t.len() && i != j implies #[trigger] t[i].0 != #[trigger] t[j].0 by {
                assert(t[i].0 == s[i].0 && t[j].0 == s[j].0);
            }
        }
        if keys_distinct(t) {
            assert forall|i: int, j: int| 0 <= i < s.len() && 0 <= j < s.len() && i != j implies #[trigger] s[i].0 != #[trigger] s[j].0 by {
                assert(t[i].0 == s[i].0 && t[j].0 == s[j].0);
            }
        }
    }
}

/// Looking a key up among the string views gives the view of its value.
pub proof fn lemma_string_entries_lookup(s: Seq<(Seq<char>, String)>, k: Seq<char>)
    requires
        keys_distinct(s),
    ensures
        lookup(string_entries(s), k) == (match lookup(s, k) {
            Some(v) => Some(v@),
            None => None::<Seq<char>>,
        }),
{
    lemma_string_entries_keys(s, k);
    let t = string_entries(s);
    if has_key(s, k) {
        let i = key_index(s, k);
        assert(t[i].0 == k);
        lemma_key_index(s, k, i);
        lemma_key_index(t, k, i);
    }
}

/// Adds `key → "none"` unless `key` is mapped.
fn add_if_absent(m: &mut StrMap<String>, key: &str)
    requires
        old(m).wf(),
    ensures
        final(m).wf(),
        string_entries(final(m).view()) == (if has_key(string_entries(old(m).view()), key@) {
            string_entries(old(m).view())
        } else {
            string_entries(old(m).view()).push((key@, "none"@))
        }),
{
    proof {
        lemma_string_entries_keys(m.view(), key@);
    }
    if !m.contains_key(key) {
        push_mapping(m, key, "none");
    }
}

fn add_keys_if_absent(m: &mut StrMap<String>, keys: &Vec<&'static str>)
    requires
        old(m).wf(),
    ensures
        final(m).wf(),
        string_entries(final(m).view()) == with_default_none(old(m).view(), keys@.map_values(|s: &'static str| s@)),
{
    let ghost start = m.view();
    let ghost kv = keys@.map_values(|s: &'static str| s@);
    let mut i: usize = 0;
    while i < keys.len()
        invariant
            i <= keys.len(),
            kv == keys@.map_values(|s: &'static str| s@),
            m.wf(),
            string_entries(m.view()) == with_default_none(start, kv.take(i as int)),
        decreases keys.len() - i,
    {
        assert(kv.take(i + 1).drop_last() =~= kv.take(i as int));
        assert(kv.take(i + 1).last() == keys@[i as int]@);
        add_if_absent(m, keys[i]);
        i += 1;
    }
    assert(kv.take(keys.len() as int) =~= kv);
}

/// Brings a configuration read from an older file up to the current
/// version: version 1 files gain the four swipe-direction mappings and
/// version 2 files the mode-shift mapping, all set to "none" where absent;
/// existing mappings are kept.
pub fn migrate(cfg: &mut Config)
    requires
        old(cfg).wf(),
    ensures
        final(cfg).wf(),
        final(cfg).version == CURRENT_VERSION,
        final(cfg).active_profile == old(cfg).active_profile,
        final(cfg).settings == old(cfg).settings,
        final(cfg).profiles.view().len() == old(cfg).profiles.view().len(),
        forall|i: int| 0 <= i < final(cfg).profiles.view().len() ==> {
            let before = #[trigger] old(cfg).profiles.view()[i];
            let after = final(cfg).profiles.view()[i];
            &&& after.0 == before.0
            &&& after.1.label == before.1.label
            &&& after.1.apps == before.1.apps
            &&& string_entries(after.1.mappings.view()) == with_default_none(before.1.mappings.view(), migration_keys(old(cfg).version))
        },
{
    let ghost start = cfg.profiles.view();
    let mut keys: Vec<&'static str> = Vec::new();
    if cfg.version < 2 {
        keys = gesture_direction_buttons();
    }
    if cfg.version < 3 {
        keys.push("mode_shift");
    }
    proof {
        assert(keys@.map_values(|s: &'static str| s@) =~= migration_keys(cfg.version));
    }
    let n = cfg.profiles.len();
    let mut i: usize = 0;
    while i < n
        invariant
            n == start.len(),
            i <= n,
            cfg.profiles.wf(),
            cfg.settings.device_layout_overrides.wf(),
            cfg.profiles.view().len() == n,
            keys@.map_values(|s: &'static str| s@) == migration_keys(old(cfg).version),
            cfg.version == old(cfg).version,
            cfg.active_profile == old(cfg).active_profile,
            cfg.settings == old(cfg).settings,
            start == old(cfg).profiles.view(),
            profiles_wf(start),
            forall|j: int| i <= j < n ==> #[trigger] cfg.profiles.view()[j] == start[j],
            forall|j: int| 0 <= j < i ==> {
                let before = #[trigger] start[j];
                let after = cfg.profiles.view()[j];
                &&& after.0 == before.0
                &&& after.1.label == before.1.label
                &&& after.1.apps == before.1.apps
                &&& after.1.mappings.wf()
                &&& string_entries(after.1.mappings.view()) == with_default_none(before.1.mappings.view(), migration_keys(old(cfg).version))
            },
        decreases n - i,
    {
        let ghost before = cfg.profiles.view();
        assert(before[i as int] == start[i as int]);
        assert(start[i as int].1.mappings.wf());
        let p = cfg.profiles.value_mut(i);
        add_keys_if_absent(&mut p.mappings, &keys);
        proof {
            let after = cfg.profiles.view();
            assert forall|a: int, b: int| 0 <= a < after.len() && 0 <= b < after.len() && a != b implies #[trigger] after[a].0 != #[trigger] after[b].0 by {
                assert(after[a].0 == before[a].0 && after[b].0 == before[b].0);
            }
            assert forall|j: int| 0 <= j < i + 1 implies {
                let b = #[trigger] start[j];
                let a = after[j];
                &&& a.0 == b.0
                &&& a.1.label == b.1.label
                &&& a.1.apps == b.1.apps
                &&& a.1.mappings.wf()
                &&& string_entries(a.1.mappings.view()) == with_default_none(b.1.mappings.view(), migration_keys(old(cfg).version))
            } by {
                if j < i {
                    assert(after[j] == before[j]);
                }
            }
        }
        i += 1;
    }
    cfg.version = CURRENT_VERSION;
    proof {
        let fin = cfg.profiles.view();
        assert forall|j: int| 0 <= j < fin.len() implies (#[trigger] fin[j]).1.mappings.wf() by {
            assert(start[j] == start[j]);
        }
    }
}

/// Adds the default profile when the configuration has none.
pub fn ensure_default_profile(cfg: &mut Config)
    requires
        old(cfg).wf(),
    ensures
        final(cfg).wf(),
        has_key(final(cfg).profiles.view(), "default"@),
        has_key(old(cfg).profiles.view(), "default"@) ==> final(cfg).profiles.view() == old(cfg).profiles.view(),
        !has_key(old(cfg).profiles.view(), "default"@) ==> exists|p: Profile| is_default_profile(p)
            && final(cfg).profiles.view() == old(cfg).profiles.view().push(("default"@, p)),
        final(cfg).version == old(cfg).version,
        final(cfg).active_profile == old(cfg).active_profile,
        final(cfg).settings == old(cfg).settings,
{
    if !cfg.profiles.contains_key("default") {
        let ghost s = cfg.profiles.view();
        let p = default_profile();
        let ghost gp = p;
        cfg.profiles.insert("default".to_owned(), p);
        proof {
            lemma_with_entry(s, "default"@, gp);
            let t = cfg.profiles.view();
            assert(t == s.push(("default"@, gp)));
            assert forall|j: int| 0 <= j < t.len() implies (#[trigger] t[j]).1.mappings.wf() by {
                if j < s.len() {
                    assert(t[j] == s[j]);
                }
            }
        }
    }
}

// ---------------------------------------------------------------------------
// Profile operations
// ---------------------------------------------------------------------------

/// The profile whose mappings apply: the active one, or the default one
/// when the active profile is missing.
pub open spec fn active_profile_key(cfg: &Config) -> Seq<char> {
    if has_key(cfg.profiles.view(), cfg.active_profile@) { cfg.active_profile@ } else { "default"@ }
}

/// The mappings of the active profile (of the default profile when the
/// active one is missing).
pub fn get_active_mappings(cfg: &Config) -> (r: &StrMap<String>)
    requires
        cfg.wf(),
        has_key(cfg.profiles.view(), cfg.active_profile@) || has_key(cfg.profiles.view(), "default"@),
    ensures
        r.wf(),
        lookup(cfg.profiles.view(), active_profile_key(cfg)) matches Some(p) && *r == p.mappings,
{
    let p = if cfg.profiles.contains_key(cfg.active_profile.as_str()) {
        cfg.profiles.get(cfg.active_profile.as_str()).unwrap()
    } else {
        cfg.profiles.get("default").unwrap()
    };
    proof {
        let s = cfg.profiles.view();
        let k = active_profile_key(cfg);
        let i = key_index(s, k);
        assert(s[i].1.mappings.wf());
    }
    &p.mappings
}

/// `after` is `before` with `button` mapped to `action` in `profile`, and
/// unchanged when there is no such profile.
pub open spec fn mapping_set(before: Config, after: Config, profile: Seq<char>, button: Seq<char>, action: Seq<char>) -> bool {
    &&& after.version == before.version
    &&& after.active_profile == before.active_profile
    &&& after.settings == before.settings
    &&& !has_key(before.profiles.view(), profile) ==> after.profiles.view() == before.profiles.view()
    &&& has_key(before.profiles.view(), profile) ==> {
        let i = key_index(before.profiles.view(), profile);
        let old_p = before.profiles.view()[i].1;
        let new_p = after.profiles.view()[i].1;
        &&& after.profiles.view().len() == before.profiles.view().len()
        &&& forall|j: int| 0 <= j < before.profiles.view().len() && j != i ==> #[trigger] after.profiles.view()[j] == before.profiles.view()[j]
        &&& after.profiles.view()[i].0 == profile
        &&& new_p.label == old_p.label
        &&& new_p.apps == old_p.apps
        &&& new_p.mappings.view() == with_entry(old_p.mappings.view(), button, new_p.mappings.view()[key_index(new_p.mappings.view(), button)].1)
        &&& lookup(new_p.mappings.view(), button) matches Some(a) && a@ == action
    }
}

/// Maps `button` to `action_id` in `profile`; nothing happens when the
/// profile does not exist.
pub fn set_mapping(cfg: &mut Config, button: &str, action_id: &str, profile: &str)
    requires
        old(cfg).wf(),
    ensures
        final(cfg).wf(),
        mapping_set(*old(cfg), *final(cfg), profile@, button@, action_id@),
{
    match cfg.profiles.find(profile) {
        Some(i) => {
            let ghost s = cfg.profiles.view();
            assert(s[i as int].1.mappings.wf());
            let p = cfg.profiles.value_mut(i);
            let ghost m0 = p.mappings.view();
            let a = action_id.to_owned();
            let ghost ga = a;
            p.mappings.insert(button.to_owned(), a);
            proof {
                lemma_with_entry(m0, button@, ga);
                let t = cfg.profiles.view();
                let m1 = t[i as int].1.mappings.view();
                let ki = key_index(m1, button@);
                lemma_key_index(m1, button@, ki);
                assert forall|a: int, b: int| 0 <= a < t.len() && 0 <= b < t.len() && a != b implies #[trigger] t[a].0 != #[trigger] t[b].0 by {
                    assert(t[a].0 == s[a].0 && t[b].0 == s[b].0);
                }
                assert forall|j: int| 0 <= j < t.len() implies (#[trigger] t[j]).1.mappings.wf() by {
                    if j != i {
                        assert(t[j] == s[j]);
                    }
                }
            }
        },
        None => {},
    }
}

/// `after` is `before` with profile `name` created (or replaced): labelled
/// `label`, with no applications, and the mappings of `copy_from` when that
/// profile exists, the default mappings otherwise.
pub open spec fn profile_created(before: Config, after: Config, name: Seq<char>, label: Seq<char>, copy_from: Option<Seq<char>>) -> bool {
    &&& after.version == before.version
    &&& after.active_profile == before.active_profile
    &&& after.settings == before.settings
    &&& exists|p: Profile| {
        &&& after.profiles.view() == with_entry(before.profiles.view(), name, p)
        &&& p.label@ == label
        &&& p.apps@.len() == 0
        &&& p.mappings.wf()
        &&& (match copy_from {
            Some(src) if has_key(before.profiles.view(), src) =>
                string_entries(p.mappings.view()) == string_entries(lookup(before.profiles.view(), src).unwrap().mappings.view()),
            _ => string_entries(p.mappings.view()) == spec_default_mappings(),
        })
    }
}

pub open spec fn opt_str_view(o: Option<&str>) -> Option<Seq<char>> {
    match o {
        Some(s) => Some(s@),
        None => None,
    }
}

/// Creates (or replaces) profile `name` with no applications, copying the
/// mappings of `copy_from` when that profile exists and using the default
/// mappings otherwise.
pub fn create_profile(cfg: &mut Config, name: &str, label: &str, copy_from: Option<&str>)
    requires
        old(cfg).wf(),
    ensures
        final(cfg).wf(),
        profile_created(*old(cfg), *final(cfg), name@, label@, opt_str_view(copy_from)),
{
    let ghost s = cfg.profiles.view();
    let mappings = match copy_from {
        Some(src) => match cfg.profiles.get(src) {
            Some(p) => {
                proof {
                    let k = key_index(s, src@);
                    assert(s[k].1.mappings.wf());
                }
                copy_mappings(&p.mappings)
            },
            None => default_mappings(),
        },
        None => default_mappings(),
    };
    let p = Profile { label: label.to_owned(), apps: Vec::new(), mappings };
    let ghost gp = p;
    cfg.profiles.insert(name.to_owned(), p);
    proof {
        lemma_with_entry(s, name@, gp);
        let t = cfg.profiles.view();
        assert forall|j: int| 0 <= j < t.len() implies (#[trigger] t[j]).1.mappings.wf() by {
            if has_key(s, name@) {
                if j != key_index(s, name@) {
                    assert(t[j] == s[j]);
                }
            } else if j < s.len() {
                assert(t[j] == s[j]);
            }
        }
    }
}

/// A copy of a string map with the same entries.
pub(crate) fn copy_mappings(m: &StrMap<String>) -> (r: StrMap<String>)
    requires
        m.wf(),
    ensures
        r.wf(),
        string_entries(r.view()) == string_entries(m.view()),
{
    let mut out: StrMap<String> = StrMap::new();
    let n = m.len();
    let mut i: usize = 0;
    while i < n
        invariant
            n == m.view().len(),
            i <= n,
            m.wf(),
            out.wf(),
            string_entries(out.view()) == string_entries(m.view().take(i as int)),
        decreases n - i,
    {
        let (k, v) = m.entry(i);
        proof {
            let so = string_entries(out.view());
            if has_key(so, k@) {
                let j = key_index(so, k@);
                assert(so[j].0 == k@);
                assert(m.view().take(i as int)[j].0 == k@);
                assert(m.view()[j].0 == k@);
            }
        }
        push_mapping(&mut out, k.as_str(), v.as_str());
        assert(string_entries(m.view().take(i + 1)) =~= string_entries(m.view().take(i as int)).push((k@, v@)));
        i += 1;
    }
    assert(m.view().take(n as int) =~= m.view());
    out
}

/// `after` is `before` with profile `name` deleted, `removed` saying
/// whether it existed; the default profile is never deleted, and when the
/// active profile is deleted the default one becomes active.
pub open spec fn profile_deleted(before: Config, after: Config, name: Seq<char>, removed: bool) -> bool {
    &&& name == "default"@ ==> !removed && after.profiles.view() == before.profiles.view()
        && after.active_profile == before.active_profile
    &&& name != "default"@ ==> {
        &&& removed == has_key(before.profiles.view(), name)
        &&& after.profiles.view() == without_key(before.profiles.view(), name)
        &&& after.active_profile@ == (if before.active_profile@ == name { "default"@ } else { before.active_profile@ })
    }
    &&& after.version == before.version
    &&& after.settings == before.settings
}

/// Deletes profile `name` and reports whether it existed.  The default
/// profile is never deleted; when the active profile is deleted the
/// default one becomes active.
pub fn delete_profile(cfg: &mut Config, name: &str) -> (removed: bool)
    requires
        old(cfg).wf(),
    ensures
        final(cfg).wf(),
        profile_deleted(*old(cfg), *final(cfg), name@, removed),
{
    if str_eq(name, "default") {
        return false;
    }
    let ghost s = cfg.profiles.view();
    proof {
        lemma_without_key(s, name@);
    }
    let removed = cfg.profiles.remove(name).is_some();
    if str_eq(cfg.active_profile.as_str(), name) {
        cfg.active_profile = "default".to_owned();
    }
    proof {
        let t = cfg.profiles.view();
        assert forall|j: int| 0 <= j < t.len() implies (#[trigger] t[j]).1.mappings.wf() by {
            if has_key(s, name@) {
                let n = key_index(s, name@);
                if j < n {
                    assert(t[j] == s[j]);
                } else {
                    assert(t[j] == s[j + 1]);
                }
            }
        }
    }
    removed
}

/// Some application listed by the profile is `exe`, ignoring case.
pub open spec fn profile_lists_app(apps: Seq<String>, exe_lower: Seq<char>) -> bool {
    exists|j: int| 0 <= j < apps.len() && str_lower(#[trigger] apps[j]@) == exe_lower
}

/// Whether entry `i` is a non-default profile listing the application.
pub open spec fn claims_app(s: Seq<(Seq<char>, Profile)>, i: int, exe_lower: Seq<char>) -> bool {
    s[i].0 != "default"@ && profile_lists_app(s[i].1.apps@, exe_lower)
}

/// The first non-default profile that lists the application, or
/// "default".
pub open spec fn profile_for_app(s: Seq<(Seq<char>, Profile)>, exe_lower: Seq<char>) -> Seq<char> {
    if exists|i: int| 0 <= i < s.len() && #[trigger] claims_app(s, i, exe_lower) {
        s[choose|i: int| 0 <= i < s.len() && #[trigger] claims_app(s, i, exe_lower)
            && forall|j: int| 0 <= j < i ==> !#[trigger] claims_app(s, j, exe_lower)].0
    } else {
        "default"@
    }
}

fn apps_contain(apps: &Vec<String>, exe_lower: &[char]) -> (r: bool)
    ensures
        r == profile_lists_app(apps@, exe_lower@),
{
    let mut j: usize = 0;
    while j < apps.len()
        invariant
            j <= apps.len(),
            forall|q: int| 0 <= q < j ==> str_lower(#[trigger] apps@[q]@) != exe_lower@,
        decreases apps.len() - j,
    {
        let l = to_lowercase(apps[j].as_str());
        let lc = chars_of(l.as_str());
        if chars_eq(&lc, exe_lower) {
            return true;
        }
        j += 1;
    }
    false
}

/// The profile for an application: the first non-default profile (in
/// profile order) whose applications include `exe_name`, compared after
/// lower-casing both; "default" when there is none.
pub fn get_profile_for_app(cfg: &Config, exe_name: &str) -> (r: String)
    requires
        cfg.wf(),
    ensures
        r@ == profile_for_app(cfg.profiles.view(), str_lower(exe_name@)),
{
    let lower = to_lowercase(exe_name);
    let exe_lower = chars_of(lower.as_str());
    let ghost s = cfg.profiles.view();
    let n = cfg.profiles.len();
    let mut i: usize = 0;
    while i < n
        invariant
            n == s.len(),
            s == cfg.profiles.view(),
            exe_lower@ == str_lower(exe_name@),
            i <= n,
            forall|j: int| 0 <= j < i ==> !#[trigger] claims_app(s, j, exe_lower@),
        decreases n - i,
    {
        let (key, profile) = cfg.profiles.entry(i);
        if !str_eq(key.as_str(), "default") && apps_contain(&profile.apps, &exe_lower) {
            proof {
                assert(claims_app(s, i as int, exe_lower@));
                let c = choose|c: int| 0 <= c < s.len() && #[trigger] claims_app(s, c, exe_lower@)
                    && forall|j: int| 0 <= j < c ==> !#[trigger] claims_app(s, j, exe_lower@);
                if c < i {
                } else if c > i {
                    assert(!claims_app(s, i as int, exe_lower@));
                }
                assert(c == i);
            }
            return key.clone();
        }
        i += 1;
    }
    "default".to_owned()
}

/// An application falls back to the default profile exactly when no
/// non-default profile lists it.
pub proof fn lemma_default_iff_unclaimed(s: Seq<(Seq<char>, Profile)>, exe_lower: Seq<char>)
    requires
        keys_distinct(s),
    ensures
        (profile_for_app(s, exe_lower) == "default"@)
            <==> !(exists|i: int| 0 <= i < s.len() && #[trigger] claims_app(s, i, exe_lower)),
{
    if exists|i: int| 0 <= i < s.len() && #[trigger] claims_app(s, i, exe_lower) {
        let w = choose|i: int| 0 <= i < s.len() && #[trigger] claims_app(s, i, exe_lower);
        lemma_first_claim(s, exe_lower, w);
    }
}

proof fn lemma_first_claim(s: Seq<(Seq<char>, Profile)>, exe_lower: Seq<char>, w: int)
    requires
        0 <= w < s.len(),
        claims_app(s, w, exe_lower),
    ensures
        exists|i: int| 0 <= i < s.len() && #[trigger] claims_app(s, i, exe_lower)
            && forall|j: int| 0 <= j < i ==> !#[trigger] claims_app(s, j, exe_lower),
    decreases w,
{
    if exists|j: int| 0 <= j < w && #[trigger] claims_app(s, j, exe_lower) {
        let j = choose|j: int| 0 <= j < w && #[trigger] claims_app(s, j, exe_lower);
        lemma_first_claim(s, exe_lower, j);
    } else {
        assert(claims_app(s, w, exe_lower) && forall|j: int| 0 <= j < w ==> !#[trigger] claims_app(s, j, exe_lower));
    }
}

} // verus!
