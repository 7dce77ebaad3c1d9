//! The actions a button can be mapped to: the built-in ones with their
//! labels and categories, the key names accepted in custom shortcuts
//! ("custom:ctrl+shift+a"), and the parsing and labelling of such
//! shortcuts.

use vstd::prelude::*;
use crate::text::{
    capitalize, capitalize_chars, chars_of, chars_start_with, has_prefix, join_chars, join_with,
    split_chars, split_on, str_eq, string_of, trim, trim_chars,
};

verus! {

pub const CATEGORY_NAVIGATION: &'static str = "Navigation";

pub const CATEGORY_BROWSER: &'static str = "Browser";

pub const CATEGORY_EDITING: &'static str = "Editing";

pub const CATEGORY_MEDIA: &'static str = "Media";

pub const CATEGORY_OTHER: &'static str = "Other";

/// A built-in action: its id, the label shown to the user and its
/// category.
#[derive(Clone, Copy, Debug)]
pub struct Action {
    pub id: &'static str,
    pub label: &'static str,
    pub category: &'static str,
}

pub open spec fn act(id: &'static str, label: &'static str, category: &'static str) -> Action {
    Action { id, label, category }
}

/// The built-in actions, by category.
pub open spec fn spec_actions() -> Seq<Action> {
    seq![
        act("alt_tab", "Switch Windows", CATEGORY_NAVIGATION),
        act("alt_shift_tab", "Switch Windows Reverse", CATEGORY_NAVIGATION),
        act("win_d", "Show Desktop", CATEGORY_NAVIGATION),
        act("task_view", "Task View / Mission Control", CATEGORY_NAVIGATION),
        act("mission_control", "Mission Control", CATEGORY_NAVIGATION),
        act("app_expose", "App Expose", CATEGORY_NAVIGATION),
        act("show_desktop", "Show Desktop", CATEGORY_NAVIGATION),
        act("launchpad", "Launchpad", CATEGORY_NAVIGATION),
        act("space_left", "Previous Desktop", CATEGORY_NAVIGATION),
        act("space_right", "Next Desktop", CATEGORY_NAVIGATION),
        act("page_up", "Page Up", CATEGORY_NAVIGATION),
        act("page_down", "Page Down", CATEGORY_NAVIGATION),
        act("home", "Home", CATEGORY_NAVIGATION),
        act("end", "End", CATEGORY_NAVIGATION),
        act("browser_back", "Browser Back", CATEGORY_BROWSER),
        act("browser_forward", "Browser Forward", CATEGORY_BROWSER),
        act("next_tab", "Next Tab", CATEGORY_BROWSER),
        act("prev_tab", "Previous Tab", CATEGORY_BROWSER),
        act("close_tab", "Close Tab", CATEGORY_BROWSER),
        act("new_tab", "New Tab", CATEGORY_BROWSER),
        act("copy", "Copy", CATEGORY_EDITING),
        act("paste", "Paste", CATEGORY_EDITING),
        act("cut", "Cut", CATEGORY_EDITING),
        act("undo", "Undo", CATEGORY_EDITING),
        act("select_all", "Select All", CATEGORY_EDITING),
        act("save", "Save", CATEGORY_EDITING),
        act("find", "Find", CATEGORY_EDITING),
        act("volume_up", "Volume Up", CATEGORY_MEDIA),
        act("volume_down", "Volume Down", CATEGORY_MEDIA),
        act("volume_mute", "Volume Mute", CATEGORY_MEDIA),
        act("play_pause", "Play / Pause", CATEGORY_MEDIA),
        act("next_track", "Next Track", CATEGORY_MEDIA),
        act("prev_track", "Previous Track", CATEGORY_MEDIA),
        act("none", "Do Nothing (Pass-through)", CATEGORY_OTHER),
    ]
}

/// All built-in actions.
pub fn actions() -> (r: Vec<Action>)
    ensures
        r@ == spec_actions(),
{
    let v = vec![
        Action { id: "alt_tab", label: "Switch Windows", category: CATEGORY_NAVIGATION },
        Action { id: "alt_shift_tab", label: "Switch Windows Reverse", category: CATEGORY_NAVIGATION },
        Action { id: "win_d", label: "Show Desktop", category: CATEGORY_NAVIGATION },
        Action { id: "task_view", label: "Task View / Mission Control", category: CATEGORY_NAVIGATION },
        Action { id: "mission_control", label: "Mission Control", category: CATEGORY_NAVIGATION },
        Action { id: "app_expose", label: "App Expose", category: CATEGORY_NAVIGATION },
        Action { id: "show_desktop", label: "Show Desktop", category: CATEGORY_NAVIGATION },
        Action { id: "launchpad", label: "Launchpad", category: CATEGORY_NAVIGATION },
        Action { id: "space_left", label: "Previous Desktop", category: CATEGORY_NAVIGATION },
        Action { id: "space_right", label: "Next Desktop", category: CATEGORY_NAVIGATION },
        Action { id: "page_up", label: "Page Up", category: CATEGORY_NAVIGATION },
        Action { id: "page_down", label: "Page Down", category: CATEGORY_NAVIGATION },
        Action { id: "home", label: "Home", category: CATEGORY_NAVIGATION },
        Action { id: "end", label: "End", category: CATEGORY_NAVIGATION },
        Action { id: "browser_back", label: "Browser Back", category: CATEGORY_BROWSER },
        Action { id: "browser_forward", label: "Browser Forward", category: CATEGORY_BROWSER },
        Action { id: "next_tab", label: "Next Tab", category: CATEGORY_BROWSER },
        Action { id: "prev_tab", label: "Previous Tab", category: CATEGORY_BROWSER },
        Action { id: "close_tab", label: "Close Tab", category: CATEGORY_BROWSER },
        Action { id: "new_tab", label: "New Tab", category: CATEGORY_BROWSER },
        Action { id: "copy", label: "Copy", category: CATEGORY_EDITING },
        Action { id: "paste", label: "Paste", category: CATEGORY_EDITING },
        Action { id: "cut", label: "Cut", category: CATEGORY_EDITING },
        Action { id: "undo", label: "Undo", category: CATEGORY_EDITING },
        Action { id: "select_all", label: "Select All", category: CATEGORY_EDITING },
        Action { id: "save", label: "Save", category: CATEGORY_EDITING },
        Action { id: "find", label: "Find", category: CATEGORY_EDITING },
        Action { id: "volume_up", label: "Volume Up", category: CATEGORY_MEDIA },
        Action { id: "volume_down", label: "Volume Down", category: CATEGORY_MEDIA },
        Action { id: "volume_mute", label: "Volume Mute", category: CATEGORY_MEDIA },
        Action { id: "play_pause", label: "Play / Pause", category: CATEGORY_MEDIA },
        Action { id: "next_track", label: "Next Track", category: CATEGORY_MEDIA },
        Action { id: "prev_track", label: "Previous Track", category: CATEGORY_MEDIA },
        Action { id: "none", label: "Do Nothing (Pass-through)", category: CATEGORY_OTHER },
    ];
    assert(v@ =~= spec_actions());
    v
}

/// The first built-in action whose id is `id`.
pub open spec fn find_action(s: Seq<Action>, id: Seq<char>) -> Option<Action>
    decreases s.len(),
{
    if s.len() == 0 {
        None
    } else if s[0].id@ == id {
        Some(s[0])
    } else {
        find_action(s.drop_first(), id)
    }
}

/// Looks up a built-in action by id; custom and unknown ids give `None`.
pub fn get_action(id: &str) -> (r: Option<Action>)
    ensures
        r == find_action(spec_actions(), id@),
{
    let all = actions();
    let ghost s = all@;
    let mut i: usize = 0;
    assert(s.subrange(0, s.len() as int) =~= s);
    while i < all.len()
        invariant
            s == all@,
            s == spec_actions(),
            i <= all.len(),
            find_action(s, id@) == find_action(s.subrange(i as int, s.len() as int), id@),
        decreases all.len() - i,
    {
        assert(s.subrange(i as int, s.len() as int).drop_first() =~= s.subrange(i + 1, s.len() as int));
        if str_eq(all[i].id, id) {
            return Some(all[i]);
        }
        i += 1;
    }
    None
}

// ---------------------------------------------------------------------------
// Key names
// ---------------------------------------------------------------------------

/// The key names accepted in custom shortcuts, in sorted order.
pub open spec fn spec_valid_key_names() -> Seq<&'static str> {
    seq![
        "a", "alt", "b", "backspace", "c", "ctrl", "d", "delete", "down",
        "e", "end", "enter", "esc",
        "f", "f1", "f10", "f11", "f12", "f2", "f3", "f4", "f5", "f6", "f7", "f8", "f9",
        "g", "h", "home", "i", "j", "k", "l", "left",
        "m", "mute", "n", "nexttrack", "o",
        "p", "pagedown", "pageup", "playpause", "prevtrack",
        "q", "r", "right", "s", "shift", "space", "super",
        "t", "tab", "u", "up", "v", "volumedown", "volumeup",
        "w", "x", "y", "z",
    ]
}

/// The key names accepted in custom shortcuts, sorted.
pub fn valid_custom_key_names() -> (r: Vec<&'static str>)
    ensures
        r@ == spec_valid_key_names(),
{
    let v = vec![
        "a", "alt", "b", "backspace", "c", "ctrl", "d", "delete", "down",
        "e", "end", "enter", "esc",
        "f", "f1", "f10", "f11", "f12", "f2", "f3", "f4", "f5", "f6", "f7", "f8", "f9",
        "g", "h", "home", "i", "j", "k", "l", "left",
        "m", "mute", "n", "nexttrack", "o",
        "p", "pagedown", "pageup", "playpause", "prevtrack",
        "q", "r", "right", "s", "shift", "space", "super",
        "t", "tab", "u", "up", "v", "volumedown", "volumeup",
        "w", "x", "y", "z",
    ];
    assert(v@ =~= spec_valid_key_names());
    v
}

pub open spec fn is_key_name(name: Seq<char>) -> bool {
    exists|i: int| 0 <= i < spec_valid_key_names().len() && (#[trigger] spec_valid_key_names()[i])@ == name
}

/// Whether `name` is one of the accepted key names (which are all lower
/// case).
pub fn is_valid_key_name(name: &str) -> (r: bool)
    ensures
        r == is_key_name(name@),
{
    let names = valid_custom_key_names();
    let mut i: usize = 0;
    while i < names.len()
        invariant
            names@ == spec_valid_key_names(),
            i <= names.len(),
            forall|j: int| 0 <= j < i ==> (#[trigger] spec_valid_key_names()[j])@ != name@,
        decreases names.len() - i,
    {
        if str_eq(names[i], name) {
            assert((spec_valid_key_names()[i as int])@ == name@);
            return true;
        }
        i += 1;
    }
    false
}

// ---------------------------------------------------------------------------
// Custom shortcuts
// ---------------------------------------------------------------------------

pub open spec fn custom_prefix() -> Seq<char> {
    "custom:"@
}

/// The part of a custom id after "custom:".
pub open spec fn combo_of(action_id: Seq<char>) -> Seq<char> {
    action_id.subrange(7, action_id.len() as int)
}

/// The "+"-separated parts of a combo, each trimmed and capitalised.
pub open spec fn label_parts(parts: Seq<Seq<char>>) -> Seq<Seq<char>> {
    parts.map_values(|p: Seq<char>| capitalize(trim(p)))
}

/// The label of an action id: a custom shortcut "custom:ctrl+shift+a"
/// reads "Ctrl + Shift + A"; any other id is its own label.
pub open spec fn spec_custom_label(action_id: Seq<char>) -> Seq<char> {
    if has_prefix(action_id, custom_prefix()) {
        join_with(label_parts(split_on(combo_of(action_id), '+')), " + "@)
    } else {
        action_id
    }
}

fn prefix_chars() -> (r: Vec<char>)
    ensures
        r@ == custom_prefix(),
        r@.len() == 7,
{
    proof {
        reveal_strlit("custom:");
    }
    chars_of("custom:")
}

fn combo_chars(id: &Vec<char>) -> (r: Vec<char>)
    requires
        id@.len() >= 7,
    ensures
        r@ == combo_of(id@),
{
    let mut out: Vec<char> = Vec::new();
    let mut i: usize = 7;
    while i < id.len()
        invariant
            7 <= i <= id.len(),
            out@ == id@.subrange(7, i as int),
        decreases id.len() - i,
    {
        out.push(id[i]);
        i += 1;
        assert(out@ =~= id@.subrange(7, i as int));
    }
    out
}

/// Formats an action id for display: "custom:ctrl+shift+a" becomes
/// "Ctrl + Shift + A"; other ids come back unchanged.
pub fn custom_action_label(action_id: &str) -> (r: String)
    ensures
        r@ == spec_custom_label(action_id@),
{
    let id = chars_of(action_id);
    let prefix = prefix_chars();
    if !chars_start_with(&id, &prefix) {
        return action_id.to_owned();
    }
    let combo = combo_chars(&id);
    let parts = split_chars(&combo, '+');
    let ghost sp = split_on(combo@, '+');
    let mut formatted: Vec<Vec<char>> = Vec::new();
    let mut i: usize = 0;
    while i < parts.len()
        invariant
            parts@.len() == sp.len(),
            forall|k: int| 0 <= k < parts@.len() ==> #[trigger] parts@[k]@ == sp[k],
            i <= parts.len(),
            formatted@.len() == i,
            forall|k: int| 0 <= k < i ==> #[trigger] formatted@[k]@ == capitalize(trim(sp[k])),
        decreases parts.len() - i,
    {
        let t = trim_chars(&parts[i]);
        let c = capitalize_chars(&t);
        formatted.push(c);
        i += 1;
    }
    let sep = chars_of(" + ");
    let joined = join_chars(&formatted, &sep);
    assert(formatted@.map_values(|p: Vec<char>| p@) =~= label_parts(sp));
    string_of(&joined)
}

/// The key names of a combo's parts: parts that are empty once trimmed
/// are skipped; any other part must be an accepted key name, else there
/// is no result.
pub open spec fn parse_parts(parts: Seq<Seq<char>>) -> Option<Seq<Seq<char>>>
    decreases parts.len(),
{
    if parts.len() == 0 {
        Some(Seq::empty())
    } else {
        match parse_parts(parts.drop_last()) {
            None => None,
            Some(acc) => {
                let name = trim(parts.last());
                if name.len() == 0 {
                    Some(acc)
                } else if is_key_name(name) {
                    Some(acc.push(name))
                } else {
                    None
                }
            },
        }
    }
}

/// The key names of a custom action id; no result for other ids.
pub open spec fn spec_parse_combo(action_id: Seq<char>) -> Option<Seq<Seq<char>>> {
    if has_prefix(action_id, custom_prefix()) {
        parse_parts(split_on(combo_of(action_id), '+'))
    } else {
        None
    }
}

pub open spec fn strings_view(v: Seq<String>) -> Seq<Seq<char>> {
    v.map_values(|s: String| s@)
}

pub open spec fn opt_strings_view(o: Option<Vec<String>>) -> Option<Seq<Seq<char>>> {
    match o {
        Some(v) => Some(strings_view(v@)),
        None => None,
    }
}

/// Parses "custom:ctrl+a" into its lower-case key names, skipping empty
/// parts; `None` for ids without the "custom:" prefix and for combos with
/// a name that is not an accepted key name.
pub fn parse_custom_combo(action_id: &str) -> (r: Option<Vec<String>>)
    ensures
        opt_strings_view(r) == spec_parse_combo(action_id@),
{
    let id = chars_of(action_id);
    let prefix = prefix_chars();
    if !chars_start_with(&id, &prefix) {
        return None;
    }
    let combo = combo_chars(&id);
    let parts = split_chars(&combo, '+');
    let ghost sp = split_on(combo@, '+');
    let mut keys: Vec<String> = Vec::new();
    let mut i: usize = 0;
    while i < parts.len()
        invariant
            parts@.len() == sp.len(),
            forall|k: int| 0 <= k < parts@.len() ==> #[trigger] parts@[k]@ == sp[k],
            i <= parts.len(),
            parse_parts(sp.take(i as int)) == Some(strings_view(keys@)),
            sp == split_on(combo@, '+'),
            combo@ == combo_of(action_id@),
            has_prefix(action_id@, custom_prefix()),
        decreases parts.len() - i,
    {
        assert(sp.take(i + 1).drop_last() =~= sp.take(i as int));
        assert(sp.take(i + 1).last() == sp[i as int]);
        let name_c = trim_chars(&parts[i]);
        let name = string_of(&name_c);
        if name_c.len() > 0 {
            if !is_valid_key_name(name.as_str()) {
                proof {
                    assert(trim(sp.take(i + 1).last()) == name@);
                    assert(parse_parts(sp.take(i + 1)) is None);
                    lemma_parse_stays_none(sp, i as int + 1);
                    assert(sp.take(sp.len() as int) =~= sp);
                }
                return None;
            }
            let ghost before = keys@;
            keys.push(name);
            assert(strings_view(keys@) =~= strings_view(before).push(name_c@));
        }
        i += 1;
    }
    assert(sp.take(parts.len() as int) =~= sp);
    Some(keys)
}

/// Once a prefix of the parts fails, every longer prefix fails too.
proof fn lemma_parse_stays_none(parts: Seq<Seq<char>>, n: int)
    requires
        0 <= n <= parts.len(),
        parse_parts(parts.take(n)) is None,
    ensures
        parse_parts(parts.take(parts.len() as int)) is None,
    decreases parts.len() - n,
{
    if n < parts.len() {
        assert(parts.take(n + 1).drop_last() =~= parts.take(n));
        lemma_parse_stays_none(parts, n + 1);
    }
}

/// Every name of a parsed combo is an accepted key name, and parsing
/// succeeds exactly on "custom:" ids.
pub proof fn lemma_parsed_names_valid(action_id: Seq<char>)
    ensures
        spec_parse_combo(action_id) is Some ==> has_prefix(action_id, custom_prefix()),
        spec_parse_combo(action_id) matches Some(names) ==> forall|i: int|
            0 <= i < names.len() ==> is_key_name(#[trigger] names[i]),
{
    if has_prefix(action_id, custom_prefix()) {
        lemma_parts_valid(split_on(combo_of(action_id), '+'));
    }
}

proof fn lemma_parts_valid(parts: Seq<Seq<char>>)
    ensures
        parse_parts(parts) matches Some(names) ==> forall|i: int|
            0 <= i < names.len() ==> is_key_name(#[trigger] names[i]),
    decreases parts.len(),
{
    if parts.len() > 0 {
        lemma_parts_valid(parts.drop_last());
    }
}

/// The categories in the order the settings window lists them.
pub open spec fn spec_categories() -> Seq<&'static str> {
    seq![CATEGORY_NAVIGATION, CATEGORY_BROWSER, CATEGORY_EDITING, CATEGORY_MEDIA, CATEGORY_OTHER]
}

pub fn categories() -> (r: Vec<&'static str>)
    ensures
        r@ == spec_categories(),
{
    vec![CATEGORY_NAVIGATION, CATEGORY_BROWSER, CATEGORY_EDITING, CATEGORY_MEDIA, CATEGORY_OTHER]
}

/// The actions of `s` whose category is `cat`, in order.
pub open spec fn of_category(s: Seq<Action>, cat: Seq<char>) -> Seq<Action>
    decreases s.len(),
{
    if s.len() == 0 {
        Seq::empty()
    } else if s.last().category@ == cat {
        of_category(s.drop_last(), cat).push(s.last())
    } else {
        of_category(s.drop_last(), cat)
    }
}

/// The built-in actions of category `cat`, in table order.
pub fn actions_in_category(cat: &str) -> (r: Vec<Action>)
    ensures
        r@ == of_category(spec_actions(), cat@),
{
    let all = actions();
    let mut out: Vec<Action> = Vec::new();
    let mut i: usize = 0;
    while i < all.len()
        invariant
            all@ == spec_actions(),
            i <= all@.len(),
            out@ == of_category(all@.take(i as int), cat@),
        decreases all.len() - i,
    {
        let a = all[i];
        assert(all@.take(i + 1).drop_last() =~= all@.take(i as int));
        if str_eq(a.category, cat) {
            out.push(a);
        }
        i += 1;
    }
    assert(all@.take(all@.len() as int) =~= all@);
    out
}

} // verus!
