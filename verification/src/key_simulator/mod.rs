//! What running an action means: "none" does nothing, a "custom:" id is
//! parsed into key names, any other id goes to the platform's table of
//! built-in actions.  The platform modules turn these decisions into the
//! key events to post; posting them happens outside the library.


pub mod linux;
pub mod macos;
pub mod windows;

use vstd::prelude::*;
use crate::actions::{
    custom_prefix, parse_custom_combo, spec_custom_label, spec_parse_combo, strings_view,
};
use crate::text::{chars_of, chars_start_with, has_prefix, str_eq};

verus! {

/// How long the keys of a shortcut are held, by default.
pub const DEFAULT_HOLD_MS: u64 = 50;

/// Where an action id goes.
#[derive(Clone, Copy, PartialEq, Eq, Structural, Debug)]
pub enum DispatchKind {
    /// "none": nothing happens.
    Nothing,
    /// A built-in action id, handled by the platform table.
    Builtin,
    /// A custom shortcut with at least one key name.
    Custom,
    /// A custom shortcut without key names: ignored.
    CustomEmpty,
    /// A custom shortcut with an unknown key name: ignored with a warning.
    CustomInvalid,
}

/// The decision for one action id: where it goes, the key names of a
/// custom shortcut, and how long keys are held.
pub struct Dispatch {
    pub kind: DispatchKind,
    pub action_id: String,
    pub keys: Vec<String>,
    pub hold_ms: u64,
}

pub open spec fn spec_dispatch_kind(action_id: Seq<char>) -> DispatchKind {
    if action_id == "none"@ {
        DispatchKind::Nothing
    } else if has_prefix(action_id, custom_prefix()) {
        match spec_parse_combo(action_id) {
            Some(names) => if names.len() > 0 {
                DispatchKind::Custom
            } else {
                DispatchKind::CustomEmpty
            },
            None => DispatchKind::CustomInvalid,
        }
    } else {
        DispatchKind::Builtin
    }
}

pub open spec fn spec_dispatch_keys(action_id: Seq<char>) -> Seq<Seq<char>> {
    if spec_dispatch_kind(action_id) == DispatchKind::Custom {
        spec_parse_combo(action_id).unwrap()
    } else {
        Seq::empty()
    }
}

/// Decides what running `action_id` does, holding keys `hold_ms`.
pub fn execute_action_with_hold(action_id: &str, hold_ms: u64) -> (r: Dispatch)
    ensures
        r.kind == spec_dispatch_kind(action_id@),
        r.action_id@ == action_id@,
        strings_view(r.keys@) == spec_dispatch_keys(action_id@),
        r.hold_ms == hold_ms,
{
    if str_eq(action_id, "none") {
        return Dispatch {
            kind: DispatchKind::Nothing,
            action_id: action_id.to_owned(),
            keys: Vec::new(),
            hold_ms,
        };
    }
    let id = chars_of(action_id);
    let prefix = chars_of("custom:");
    if chars_start_with(&id, &prefix) {
        let (kind, keys) = match parse_custom_combo(action_id) {
            Some(names) => if names.len() > 0 {
                (DispatchKind::Custom, names)
            } else {
                (DispatchKind::CustomEmpty, Vec::new())
            },
            None => (DispatchKind::CustomInvalid, Vec::new()),
        };
        let r = Dispatch { kind, action_id: action_id.to_owned(), keys, hold_ms };
        assert(strings_view(r.keys@) =~= spec_dispatch_keys(action_id@));
        return r;
    }
    let r = Dispatch {
        kind: DispatchKind::Builtin,
        action_id: action_id.to_owned(),
        keys: Vec::new(),
        hold_ms,
    };
    assert(strings_view(r.keys@) =~= spec_dispatch_keys(action_id@));
    r
}

/// Decides what running `action_id` does, with the default hold time.
pub fn execute_action(action_id: &str) -> (r: Dispatch)
    ensures
        r.kind == spec_dispatch_kind(action_id@),
        r.action_id@ == action_id@,
        strings_view(r.keys@) == spec_dispatch_keys(action_id@),
        r.hold_ms == DEFAULT_HOLD_MS,
{
    execute_action_with_hold(action_id, DEFAULT_HOLD_MS)
}

/// The display label of an action id ("custom:super+d" reads
/// "Super + D").
pub fn custom_action_label(action_id: &str) -> (r: String)
    ensures
        r@ == spec_custom_label(action_id@),
{
    crate::actions::custom_action_label(action_id)
}

// ---------------------------------------------------------------------------
// Key tables
// ---------------------------------------------------------------------------

/// The code of the first entry named `name`.
pub open spec fn table_lookup(t: Seq<(&'static str, u16)>, name: Seq<char>) -> Option<u16>
    decreases t.len(),
{
    if t.len() == 0 {
        None
    } else if t[0].0@ == name {
        Some(t[0].1)
    } else {
        table_lookup(t.drop_first(), name)
    }
}

/// The entry at `k` is found for its name when no earlier entry has it.
pub proof fn lemma_lookup_at(t: Seq<(&'static str, u16)>, name: Seq<char>, k: int)
    requires
        0 <= k < t.len(),
        t[k].0@ == name,
        forall|j: int| 0 <= j < k ==> (#[trigger] t[j]).0@ != name,
    ensures
        table_lookup(t, name) == Some(t[k].1),
    decreases k,
{
    if k > 0 {
        assert forall|j: int| 0 <= j < k - 1 implies (#[trigger] t.drop_first()[j]).0@ != name by {
            assert(t.drop_first()[j] == t[j + 1]);
        }
        lemma_lookup_at(t.drop_first(), name, k - 1);
    }
}

/// Looks `name` up in a key table.
pub fn lookup_code(t: &Vec<(&'static str, u16)>, name: &str) -> (r: Option<u16>)
    ensures
        r == table_lookup(t@, name@),
{
    let ghost s = t@;
    let mut i: usize = 0;
    assert(s.subrange(0, s.len() as int) =~= s);
    while i < t.len()
        invariant
            s == t@,
            i <= t.len(),
            table_lookup(s, name@) == table_lookup(s.subrange(i as int, s.len() as int), name@),
        decreases t.len() - i,
    {
        assert(s.subrange(i as int, s.len() as int).drop_first() =~= s.subrange(i + 1, s.len() as int));
        let (n, code) = t[i];
        if str_eq(n, name) {
            return Some(code);
        }
        i += 1;
    }
    None
}

/// The codes of the names that the table knows, in order; unknown names
/// are skipped.
pub open spec fn resolve_names(t: Seq<(&'static str, u16)>, names: Seq<Seq<char>>) -> Seq<u16>
    decreases names.len(),
{
    if names.len() == 0 {
        Seq::empty()
    } else {
        let init = resolve_names(t, names.drop_last());
        match table_lookup(t, names.last()) {
            Some(c) => init.push(c),
            None => init,
        }
    }
}

/// Names that the table all knows resolve to their codes, in order.
pub proof fn lemma_resolve_known(t: Seq<(&'static str, u16)>, names: Seq<Seq<char>>, codes: Seq<u16>)
    requires
        names.len() == codes.len(),
        forall|i: int| 0 <= i < names.len() ==> table_lookup(t, #[trigger] names[i]) == Some(codes[i]),
    ensures
        resolve_names(t, names) == codes,
    decreases names.len(),
{
    if names.len() > 0 {
        let n = names.drop_last();
        let c = codes.drop_last();
        assert forall|i: int| 0 <= i < n.len() implies table_lookup(t, #[trigger] n[i]) == Some(c[i]) by {
            assert(n[i] == names[i]);
        }
        lemma_resolve_known(t, n, c);
        assert(table_lookup(t, names[names.len() - 1]) == Some(codes[codes.len() - 1]));
        assert(c.push(codes.last()) =~= codes);
    }
}

/// Resolves the key names of a custom shortcut through a key table.
pub fn resolve_with(t: &Vec<(&'static str, u16)>, names: &Vec<String>) -> (r: Vec<u16>)
    ensures
        r@ == resolve_names(t@, strings_view(names@)),
{
    let ghost nv = strings_view(names@);
    let mut out: Vec<u16> = Vec::new();
    let mut i: usize = 0;
    while i < names.len()
        invariant
            nv == strings_view(names@),
            i <= names.len(),
            out@ == resolve_names(t@, nv.take(i as int)),
        decreases names.len() - i,
    {
        assert(nv.take(i + 1).drop_last() =~= nv.take(i as int));
        assert(nv.take(i + 1).last() == names@[i as int]@);
        match lookup_code(t, names[i].as_str()) {
            Some(c) => out.push(c),
            None => {},
        }
        i += 1;
    }
    assert(nv.take(names.len() as int) =~= nv);
    out
}

} // verus!
