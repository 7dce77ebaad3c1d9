//! Decisions of the event engine: which hook events each mapping blocks
//! and handles, when accumulated horizontal scrolling fires its action,
//! which profile applies when the foreground application changes, and the
//! settings changes the engine applies.  The threads, locks and platform
//! calls around these decisions live outside the library.
//!
//! Times are milliseconds on a monotonic clock; scroll amounts are
//! thousandths of a wheel step.

use vstd::prelude::*;
use crate::config::{
    active_profile_key, get_active_mappings, get_profile_for_app, has_key,
    lemma_string_entries_lookup, lookup, profile_for_app, string_entries, Config, Profile,
    Settings, StrMap,
};
use crate::hid_gesture::HidBackend;
use crate::mouse_hook::{GestureConfig, MouseEventType};
use crate::text::{chars_of, extend_str, str_eq, str_lower, string_of};

verus! {

/// Cooldown between two horizontal-scroll actions.
pub const HSCROLL_ACTION_COOLDOWN_MS: u64 = 350;

/// Shorter cooldown for volume actions, so that the volume can be swept.
pub const HSCROLL_VOLUME_COOLDOWN_MS: u64 = 60;

/// The smallest accepted horizontal-scroll threshold.
pub const MIN_HSCROLL_THRESHOLD_MILLI: u64 = 100;

/// One wheel step, the most a single scroll event counts for.
pub const FULL_STEP_MILLI: u64 = 1000;

pub open spec fn spec_volume_actions() -> Seq<Seq<char>> {
    seq!["volume_up"@, "volume_down"@]
}

/// The actions that use the shorter cooldown.
pub fn volume_actions() -> (r: Vec<&'static str>)
    ensures
        r@.map_values(|s: &'static str| s@) == spec_volume_actions(),
{
    let v = vec!["volume_up", "volume_down"];
    assert(v@.map_values(|s: &'static str| s@) =~= spec_volume_actions());
    v
}

/// Whether `action_id` is a volume action.
pub fn is_volume_action(action_id: &str) -> (r: bool)
    ensures
        r == spec_volume_actions().contains(action_id@),
{
    let v = volume_actions();
    let mut i: usize = 0;
    while i < v.len()
        invariant
            v@.map_values(|s: &'static str| s@) == spec_volume_actions(),
            i <= v.len(),
            forall|j: int| 0 <= j < i ==> spec_volume_actions()[j] != action_id@,
        decreases v.len() - i,
    {
        assert(spec_volume_actions()[i as int] == v@[i as int]@);
        if str_eq(v[i], action_id) {
            return true;
        }
        i += 1;
    }
    false
}

/// The cooldown that applies after `action_id` fired from horizontal
/// scrolling.
pub open spec fn spec_hscroll_cooldown(action_id: Seq<char>) -> u64 {
    if spec_volume_actions().contains(action_id) {
        HSCROLL_VOLUME_COOLDOWN_MS
    } else {
        HSCROLL_ACTION_COOLDOWN_MS
    }
}

pub fn hscroll_cooldown_ms(action_id: &str) -> (r: u64)
    ensures
        r == spec_hscroll_cooldown(action_id@),
{
    if is_volume_action(action_id) {
        HSCROLL_VOLUME_COOLDOWN_MS
    } else {
        HSCROLL_ACTION_COOLDOWN_MS
    }
}

// ---------------------------------------------------------------------------
// Buttons and hook events
// ---------------------------------------------------------------------------

/// The hook events a mapped button stands for, each with whether it is
/// the release half of a press (blocked, but handled by nobody).
pub open spec fn spec_button_events(button: Seq<char>) -> Seq<(MouseEventType, bool)> {
    if button == "middle"@ {
        seq![(MouseEventType::MiddleDown, false), (MouseEventType::MiddleUp, true)]
    } else if button == "gesture"@ {
        seq![
            (MouseEventType::GestureClick, false),
            (MouseEventType::GestureSwipeLeft, false),
            (MouseEventType::GestureSwipeRight, false),
            (MouseEventType::GestureSwipeUp, false),
            (MouseEventType::GestureSwipeDown, false),
        ]
    } else if button == "gesture_left"@ {
        seq![(MouseEventType::GestureSwipeLeft, false)]
    } else if button == "gesture_right"@ {
        seq![(MouseEventType::GestureSwipeRight, false)]
    } else if button == "gesture_up"@ {
        seq![(MouseEventType::GestureSwipeUp, false)]
    } else if button == "gesture_down"@ {
        seq![(MouseEventType::GestureSwipeDown, false)]
    } else if button == "xbutton1"@ {
        seq![(MouseEventType::XButton1Down, false), (MouseEventType::XButton1Up, true)]
    } else if button == "xbutton2"@ {
        seq![(MouseEventType::XButton2Down, false), (MouseEventType::XButton2Up, true)]
    } else if button == "hscroll_left"@ {
        seq![(MouseEventType::HScrollLeft, false)]
    } else if button == "hscroll_right"@ {
        seq![(MouseEventType::HScrollRight, false)]
    } else if button == "mode_shift"@ {
        seq![(MouseEventType::ModeShiftDown, false), (MouseEventType::ModeShiftUp, true)]
    } else {
        Seq::empty()
    }
}

/// The hook events registered for a button key of a profile's mappings;
/// an unknown key gives none.
pub fn button_to_event_types(button: &str) -> (r: Vec<(MouseEventType, bool)>)
    ensures
        r@ == spec_button_events(button@),
{
    let r = if str_eq(button, "middle") {
        vec![(MouseEventType::MiddleDown, false), (MouseEventType::MiddleUp, true)]
    } else if str_eq(button, "gesture") {
        vec![
            (MouseEventType::GestureClick, false),
            (MouseEventType::GestureSwipeLeft, false),
            (MouseEventType::GestureSwipeRight, false),
            (MouseEventType::GestureSwipeUp, false),
            (MouseEventType::GestureSwipeDown, false),
        ]
    } else if str_eq(button, "gesture_left") {
        vec![(MouseEventType::GestureSwipeLeft, false)]
    } else if str_eq(button, "gesture_right") {
        vec![(MouseEventType::GestureSwipeRight, false)]
    } else if str_eq(button, "gesture_up") {
        vec![(MouseEventType::GestureSwipeUp, false)]
    } else if str_eq(button, "gesture_down") {
        vec![(MouseEventType::GestureSwipeDown, false)]
    } else if str_eq(button, "xbutton1") {
        vec![(MouseEventType::XButton1Down, false), (MouseEventType::XButton1Up, true)]
    } else if str_eq(button, "xbutton2") {
        vec![(MouseEventType::XButton2Down, false), (MouseEventType::XButton2Up, true)]
    } else if str_eq(button, "hscroll_left") {
        vec![(MouseEventType::HScrollLeft, false)]
    } else if str_eq(button, "hscroll_right") {
        vec![(MouseEventType::HScrollRight, false)]
    } else if str_eq(button, "mode_shift") {
        vec![(MouseEventType::ModeShiftDown, false), (MouseEventType::ModeShiftUp, true)]
    } else {
        Vec::new()
    };
    assert(r@ =~= spec_button_events(button@));
    r
}

/// Each button binds the events of that button only: a swipe in a
/// direction is bound only by the gesture button and by the
/// gesture-direction button of that direction, a horizontal scroll only by
/// the scroll button of its side, an extra or middle button event only by
/// that button; each gesture-direction and scroll button binds exactly
/// its own event, handled; and only the release half of a press is bound
/// as a release.
pub proof fn lemma_buttons_bind_their_own_events(button: Seq<char>)
    ensures
        forall|i: int|
            0 <= i < spec_button_events(button).len() ==> {
                let e = (#[trigger] spec_button_events(button)[i]).0;
                &&& e == MouseEventType::GestureSwipeUp ==> button == "gesture"@ || button == "gesture_up"@
                &&& e == MouseEventType::GestureSwipeDown ==> button == "gesture"@ || button
                    == "gesture_down"@
                &&& e == MouseEventType::GestureSwipeLeft ==> button == "gesture"@ || button
                    == "gesture_left"@
                &&& e == MouseEventType::GestureSwipeRight ==> button == "gesture"@ || button
                    == "gesture_right"@
                &&& e == MouseEventType::GestureClick ==> button == "gesture"@
                &&& e == MouseEventType::HScrollLeft ==> button == "hscroll_left"@
                &&& e == MouseEventType::HScrollRight ==> button == "hscroll_right"@
                &&& (e == MouseEventType::XButton1Down || e == MouseEventType::XButton1Up) ==> button
                    == "xbutton1"@
                &&& (e == MouseEventType::XButton2Down || e == MouseEventType::XButton2Up) ==> button
                    == "xbutton2"@
                &&& (e == MouseEventType::MiddleDown || e == MouseEventType::MiddleUp) ==> button
                    == "middle"@
                &&& (e == MouseEventType::ModeShiftDown || e == MouseEventType::ModeShiftUp) ==> button
                    == "mode_shift"@
                &&& spec_button_events(button)[i].1 <==> (e == MouseEventType::XButton1Up || e
                    == MouseEventType::XButton2Up || e == MouseEventType::MiddleUp || e
                    == MouseEventType::ModeShiftUp)
            },
        spec_button_events("gesture_up"@) == seq![(MouseEventType::GestureSwipeUp, false)],
        spec_button_events("gesture_down"@) == seq![(MouseEventType::GestureSwipeDown, false)],
        spec_button_events("gesture_left"@) == seq![(MouseEventType::GestureSwipeLeft, false)],
        spec_button_events("gesture_right"@) == seq![(MouseEventType::GestureSwipeRight, false)],
        spec_button_events("hscroll_left"@) == seq![(MouseEventType::HScrollLeft, false)],
        spec_button_events("hscroll_right"@) == seq![(MouseEventType::HScrollRight, false)],
{
    reveal_strlit("middle");
    reveal_strlit("gesture");
    reveal_strlit("gesture_left");
    reveal_strlit("gesture_right");
    reveal_strlit("gesture_up");
    reveal_strlit("gesture_down");
    reveal_strlit("xbutton1");
    reveal_strlit("xbutton2");
    reveal_strlit("hscroll_left");
    reveal_strlit("hscroll_right");
    reveal_strlit("mode_shift");
    assert("gesture_up"@ != "gesture_left"@ && "gesture_up"@ != "gesture_right"@) by {
        assert("gesture_up"@[8] != "gesture_left"@[8]);
        assert("gesture_up"@[8] != "gesture_right"@[8]);
    }
    assert("gesture_down"@ != "gesture_left"@ && "gesture_down"@ != "gesture_right"@
        && "gesture_down"@ != "gesture_up"@) by {
        assert("gesture_down"@[8] != "gesture_left"@[8]);
        assert("gesture_down"@[8] != "gesture_right"@[8]);
        assert("gesture_down"@[8] != "gesture_up"@[8]);
    }
    assert("gesture_right"@ != "gesture_left"@) by {
        assert("gesture_right"@[8] != "gesture_left"@[8]);
    }
    assert("hscroll_right"@ != "hscroll_left"@) by {
        assert("hscroll_right"@[8] != "hscroll_left"@[8]);
    }
    assert("gesture_up"@ != "middle"@ && "gesture_up"@ != "gesture"@) by {
        assert("gesture_up"@.len() == 10 && "middle"@.len() == 6 && "gesture"@.len() == 7);
    }
    assert("gesture_down"@ != "middle"@ && "gesture_down"@ != "gesture"@) by {
        assert("gesture_down"@.len() == 12 && "middle"@.len() == 6 && "gesture"@.len() == 7);
    }
    assert("gesture_left"@ != "middle"@ && "gesture_left"@ != "gesture"@) by {
        assert("gesture_left"@.len() == 12 && "middle"@.len() == 6 && "gesture"@.len() == 7);
    }
    assert("gesture_right"@ != "middle"@ && "gesture_right"@ != "gesture"@) by {
        assert("gesture_right"@.len() == 13 && "middle"@.len() == 6 && "gesture"@.len() == 7);
    }
    assert("hscroll_left"@ != "middle"@ && "hscroll_left"@ != "gesture"@ && "hscroll_left"@ != "gesture_left"@ && "hscroll_left"@ != "gesture_right"@ && "hscroll_left"@ != "gesture_up"@ && "hscroll_left"@ != "gesture_down"@ && "hscroll_left"@ != "xbutton1"@ && "hscroll_left"@ != "xbutton2"@) by {
        assert("hscroll_left"@[0] != "middle"@[0]);
        assert("hscroll_left"@[0] != "gesture"@[0]);
        assert("hscroll_left"@[0] != "gesture_left"@[0]);
        assert("hscroll_left"@[0] != "gesture_right"@[0]);
        assert("hscroll_left"@[0] != "gesture_up"@[0]);
        assert("hscroll_left"@[0] != "gesture_down"@[0]);
        assert("hscroll_left"@[0] != "xbutton1"@[0]);
        assert("hscroll_left"@[0] != "xbutton2"@[0]);
    }
    assert("hscroll_right"@ != "middle"@ && "hscroll_right"@ != "gesture"@ && "hscroll_right"@ != "gesture_left"@ && "hscroll_right"@ != "gesture_right"@ && "hscroll_right"@ != "gesture_up"@ && "hscroll_right"@ != "gesture_down"@ && "hscroll_right"@ != "xbutton1"@ && "hscroll_right"@ != "xbutton2"@) by {
        assert("hscroll_right"@[0] != "middle"@[0]);
        assert("hscroll_right"@[0] != "gesture"@[0]);
        assert("hscroll_right"@[0] != "gesture_left"@[0]);
        assert("hscroll_right"@[0] != "gesture_right"@[0]);
        assert("hscroll_right"@[0] != "gesture_up"@[0]);
        assert("hscroll_right"@[0] != "gesture_down"@[0]);
        assert("hscroll_right"@[0] != "xbutton1"@[0]);
        assert("hscroll_right"@[0] != "xbutton2"@[0]);
    }
}

pub open spec fn is_hscroll_event(e: MouseEventType) -> bool {
    e == MouseEventType::HScrollLeft || e == MouseEventType::HScrollRight
}

/// One hook registration: the event is blocked from the system; when
/// `handled`, the action runs on it (through the scroll accumulator when
/// `hscroll`).  `threshold_milli` is the scroll threshold in force when
/// the binding was made.
pub struct Binding {
    pub event: MouseEventType,
    pub button: String,
    pub action: String,
    pub handled: bool,
    pub hscroll: bool,
    pub threshold_milli: u64,
}

pub struct BindingModel {
    pub event: MouseEventType,
    pub button: Seq<char>,
    pub action: Seq<char>,
    pub handled: bool,
    pub hscroll: bool,
    pub threshold_milli: u64,
}

impl View for Binding {
    type V = BindingModel;

    open spec fn view(&self) -> BindingModel {
        BindingModel {
            event: self.event,
            button: self.button@,
            action: self.action@,
            handled: self.handled,
            hscroll: self.hscroll,
            threshold_milli: self.threshold_milli,
        }
    }
}

pub open spec fn bindings_view(v: Seq<Binding>) -> Seq<BindingModel> {
    v.map_values(|b: Binding| b@)
}

/// The scroll threshold in force: the setting, but never below the
/// minimum.
pub open spec fn spec_hscroll_threshold(setting_milli: u32) -> u64 {
    if setting_milli < MIN_HSCROLL_THRESHOLD_MILLI {
        MIN_HSCROLL_THRESHOLD_MILLI
    } else {
        setting_milli as u64
    }
}

pub fn hscroll_threshold_milli(setting_milli: u32) -> (r: u64)
    ensures
        r == spec_hscroll_threshold(setting_milli),
{
    if (setting_milli as u64) < MIN_HSCROLL_THRESHOLD_MILLI {
        MIN_HSCROLL_THRESHOLD_MILLI
    } else {
        setting_milli as u64
    }
}

/// The bindings of one mapping: nothing for "none", else one per hook
/// event of the button.
pub open spec fn entry_bindings(button: Seq<char>, action: Seq<char>, threshold: u64) -> Seq<
    BindingModel,
> {
    if action == "none"@ {
        Seq::empty()
    } else {
        spec_button_events(button).map_values(
            |ev: (MouseEventType, bool)|
                BindingModel {
                    event: ev.0,
                    button,
                    action,
                    handled: !ev.1,
                    hscroll: is_hscroll_event(ev.0),
                    threshold_milli: threshold,
                },
        )
    }
}

/// The bindings of all mappings, in mapping order.
pub open spec fn mapping_bindings(entries: Seq<(Seq<char>, Seq<char>)>, threshold: u64) -> Seq<
    BindingModel,
>
    decreases entries.len(),
{
    if entries.len() == 0 {
        Seq::empty()
    } else {
        mapping_bindings(entries.drop_last(), threshold) + entry_bindings(
            entries.last().0,
            entries.last().1,
            threshold,
        )
    }
}

fn push_entry_bindings(
    out: &mut Vec<Binding>,
    button: &str,
    action: &str,
    threshold: u64,
)
    ensures
        bindings_view(final(out)@) == bindings_view(old(out)@) + entry_bindings(
            button@,
            action@,
            threshold,
        ),
{
    let ghost start = bindings_view(out@);
    if str_eq(action, "none") {
        assert(bindings_view(out@) =~= start + entry_bindings(button@, action@, threshold));
        return ;
    }
    let events = button_to_event_types(button);
    let ghost eb = entry_bindings(button@, action@, threshold);
    let mut i: usize = 0;
    while i < events.len()
        invariant
            events@ == spec_button_events(button@),
            eb == entry_bindings(button@, action@, threshold),
            action@ != "none"@,
            i <= events.len(),
            bindings_view(out@) == start + eb.take(i as int),
        decreases events.len() - i,
    {
        let (ev, is_up) = events[i];
        let b = Binding {
            event: ev,
            button: button.to_owned(),
            action: action.to_owned(),
            handled: !is_up,
            hscroll: ev == MouseEventType::HScrollLeft || ev == MouseEventType::HScrollRight,
            threshold_milli: threshold,
        };
        assert(b@ == eb[i as int]);
        let ghost before = out@;
        out.push(b);
        assert(bindings_view(out@) =~= bindings_view(before).push(b@));
        assert(eb.take(i + 1) =~= eb.take(i as int).push(eb[i as int]));
        assert(bindings_view(out@) =~= start + eb.take(i + 1));
        i += 1;
    }
    assert(eb.take(events.len() as int) =~= eb);
}

/// The hook registrations for a profile's mappings: every event of a
/// mapped button is blocked, and every press half gets the mapped action.
/// Buttons mapped to "none" register nothing.
pub fn hook_bindings(mappings: &StrMap<String>, threshold_milli: u64) -> (r: Vec<Binding>)
    requires
        mappings.wf(),
    ensures
        bindings_view(r@) == mapping_bindings(string_entries(mappings.view()), threshold_milli),
{
    let ghost entries = string_entries(mappings.view());
    let mut out: Vec<Binding> = Vec::new();
    let n = mappings.len();
    let mut i: usize = 0;
    while i < n
        invariant
            n == mappings.view().len(),
            entries == string_entries(mappings.view()),
            i <= n,
            bindings_view(out@) == mapping_bindings(entries.take(i as int), threshold_milli),
        decreases n - i,
    {
        let (k, v) = mappings.entry(i);
        assert(entries.take(i + 1).drop_last() =~= entries.take(i as int));
        assert(entries.take(i + 1).last() == (k@, v@));
        push_entry_bindings(&mut out, k.as_str(), v.as_str(), threshold_milli);
        i += 1;
    }
    assert(entries.take(n as int) =~= entries);
    out
}

/// The gesture settings handed to the hook's gesture detector.
pub fn gesture_config_for(settings: &Settings) -> (r: GestureConfig)
    ensures
        r.threshold == settings.gesture_threshold,
        r.deadzone == settings.gesture_deadzone,
        r.timeout_ms == settings.gesture_timeout_ms,
        r.cooldown_ms == settings.gesture_cooldown_ms,
        r.confirm_ms == 80,
{
    GestureConfig {
        threshold: settings.gesture_threshold,
        deadzone: settings.gesture_deadzone,
        timeout_ms: settings.gesture_timeout_ms,
        cooldown_ms: settings.gesture_cooldown_ms,
        confirm_ms: 80,
    }
}

pub open spec fn spec_summary_keys() -> Seq<Seq<char>> {
    seq![
        "gesture"@,
        "gesture_left"@,
        "gesture_right"@,
        "gesture_up"@,
        "gesture_down"@,
        "xbutton1"@,
        "xbutton2"@,
    ]
}

/// The action of a button, "none" when it is not mapped.
pub open spec fn action_or_none(entries: Seq<(Seq<char>, Seq<char>)>, button: Seq<char>) -> Seq<
    char,
> {
    match lookup(entries, button) {
        Some(a) => a,
        None => "none"@,
    }
}

/// "k=v" for each summarised button, separated by ", ".
pub open spec fn summary_of(entries: Seq<(Seq<char>, Seq<char>)>, keys: Seq<Seq<char>>) -> Seq<char>
    decreases keys.len(),
{
    if keys.len() == 0 {
        Seq::empty()
    } else {
        let item = keys.last() + "="@ + action_or_none(entries, keys.last());
        if keys.len() == 1 {
            item
        } else {
            summary_of(entries, keys.drop_last()) + ", "@ + item
        }
    }
}

/// The one-line summary of the gesture and side-button mappings written
/// to the debug log when the hook is re-wired.
pub fn mapping_summary(mappings: &StrMap<String>) -> (r: String)
    requires
        mappings.wf(),
    ensures
        r@ == "Hook mappings refreshed: "@ + summary_of(string_entries(mappings.view()), spec_summary_keys()),
{
    let keys = vec![
        "gesture",
        "gesture_left",
        "gesture_right",
        "gesture_up",
        "gesture_down",
        "xbutton1",
        "xbutton2",
    ];
    let ghost entries = string_entries(mappings.view());
    let ghost kv = keys@.map_values(|s: &'static str| s@);
    assert(kv =~= spec_summary_keys());
    let mut out = chars_of("Hook mappings refreshed: ");
    let ghost prefix = out@;
    let mut i: usize = 0;
    while i < keys.len()
        invariant
            kv == keys@.map_values(|s: &'static str| s@),
            entries == string_entries(mappings.view()),
            mappings.wf(),
            i <= keys.len(),
            out@ == prefix + summary_of(entries, kv.take(i as int)),
        decreases keys.len() - i,
    {
        let k = keys[i];
        if i > 0 {
            extend_str(&mut out, ", ");
        }
        extend_str(&mut out, k);
        extend_str(&mut out, "=");
        proof {
            lemma_string_entries_lookup(mappings.view(), k@);
        }
        match mappings.get(k) {
            Some(v) => {
                extend_str(&mut out, v.as_str());
            },
            None => {
                extend_str(&mut out, "none");
            },
        }
        assert(kv.take(i + 1).drop_last() =~= kv.take(i as int));
        assert(kv.take(i + 1).last() == k@);
        assert(out@ =~= prefix + summary_of(entries, kv.take(i + 1)));
        i += 1;
    }
    assert(kv.take(keys.len() as int) =~= kv);
    string_of(&out)
}

// ---------------------------------------------------------------------------
// Horizontal scrolling
// ---------------------------------------------------------------------------

/// Accumulated horizontal scrolling in one direction.
pub struct HScrollState {
    pub accum_milli: u64,
    pub last_fire_at: Option<u64>,
}

/// Time from `t` to `now`, zero when `now` is earlier.
pub open spec fn elapsed_since(t: u64, now: u64) -> int {
    if now >= t {
        now - t
    } else {
        0
    }
}

pub open spec fn spec_cooldown_elapsed(last_fire_at: Option<u64>, cooldown_ms: u64, now_ms: u64) -> bool {
    match last_fire_at {
        Some(t) => elapsed_since(t, now_ms) >= cooldown_ms,
        None => true,
    }
}

/// What one scroll event of `step` does to a direction's state, and
/// whether it fires the action: within the cooldown the accumulator is
/// cleared and nothing fires; otherwise the step is added, and reaching
/// the threshold fires, clears the accumulator and starts the cooldown.
pub open spec fn spec_on_scroll(
    s: (u64, Option<u64>),
    step: u64,
    threshold: u64,
    cooldown_ms: u64,
    now_ms: u64,
) -> ((u64, Option<u64>), bool) {
    if !spec_cooldown_elapsed(s.1, cooldown_ms, now_ms) {
        ((0, s.1), false)
    } else {
        let sum = if s.0 + step > u64::MAX {
            u64::MAX as int
        } else {
            s.0 + step
        };
        if sum >= threshold {
            ((0, Some(now_ms)), true)
        } else {
            ((sum as u64, s.1), false)
        }
    }
}

impl HScrollState {
    pub open spec fn model(&self) -> (u64, Option<u64>) {
        (self.accum_milli, self.last_fire_at)
    }

    /// Nothing accumulated; never fired.
    pub fn new() -> (r: Self)
        ensures
            r.accum_milli == 0,
            r.last_fire_at is None,
    {
        HScrollState { accum_milli: 0, last_fire_at: None }
    }

    /// Whether the cooldown since the last action has run out (true when
    /// the direction never fired).
    pub fn cooldown_elapsed(&self, cooldown_ms: u64, now_ms: u64) -> (r: bool)
        ensures
            r == spec_cooldown_elapsed(self.last_fire_at, cooldown_ms, now_ms),
    {
        match self.last_fire_at {
            Some(t) => {
                let elapsed = if now_ms >= t {
                    now_ms - t
                } else {
                    0
                };
                elapsed >= cooldown_ms
            },
            None => true,
        }
    }

    /// Adds one scroll event and says whether the action fires.
    pub fn on_scroll(&mut self, step_milli: u64, threshold_milli: u64, cooldown_ms: u64, now_ms: u64) -> (fire: bool)
        ensures
            (final(self).model(), fire) == spec_on_scroll(
                old(self).model(),
                step_milli,
                threshold_milli,
                cooldown_ms,
                now_ms,
            ),
    {
        if !self.cooldown_elapsed(cooldown_ms, now_ms) {
            self.accum_milli = 0;
            return false;
        }
        self.accum_milli = self.accum_milli.saturating_add(step_milli);
        if self.accum_milli >= threshold_milli {
            self.accum_milli = 0;
            self.last_fire_at = Some(now_ms);
            true
        } else {
            false
        }
    }
}

/// How much one scroll event counts: its magnitude, capped at one wheel
/// step; a full step when the event carries no amount.
pub open spec fn spec_scroll_step(delta_milli: Option<i64>) -> u64 {
    match delta_milli {
        None => FULL_STEP_MILLI,
        Some(d) => {
            let m = if d < 0 {
                -d
            } else {
                d as int
            };
            if m > FULL_STEP_MILLI {
                FULL_STEP_MILLI
            } else {
                m as u64
            }
        },
    }
}

pub fn scroll_step_milli(delta_milli: Option<i64>) -> (r: u64)
    ensures
        r == spec_scroll_step(delta_milli),
{
    match delta_milli {
        None => FULL_STEP_MILLI,
        Some(d) => {
            if d < -1000 || d > 1000 {
                FULL_STEP_MILLI
            } else if d < 0 {
                (-d) as u64
            } else {
                d as u64
            }
        },
    }
}

/// Within the cooldown after a fire, scrolling never fires.
pub proof fn lemma_no_fire_within_cooldown(
    s: (u64, Option<u64>),
    step: u64,
    threshold: u64,
    cooldown_ms: u64,
    fired_at: u64,
    now_ms: u64,
)
    requires
        s.1 == Some(fired_at),
        fired_at <= now_ms < fired_at + cooldown_ms,
    ensures
        !spec_on_scroll(s, step, threshold, cooldown_ms, now_ms).1,
        spec_on_scroll(s, step, threshold, cooldown_ms, now_ms).0 == (0u64, s.1),
{
}

/// A fire clears the accumulator and records the time; below the
/// threshold the steps add up.
pub proof fn lemma_fire_resets(
    s: (u64, Option<u64>),
    step: u64,
    threshold: u64,
    cooldown_ms: u64,
    now_ms: u64,
)
    requires
        spec_cooldown_elapsed(s.1, cooldown_ms, now_ms),
        s.0 + step <= u64::MAX,
    ensures
        spec_on_scroll(s, step, threshold, cooldown_ms, now_ms).1 <==> s.0 + step >= threshold,
        spec_on_scroll(s, step, threshold, cooldown_ms, now_ms).1 ==> spec_on_scroll(
            s,
            step,
            threshold,
            cooldown_ms,
            now_ms,
        ).0 == (0u64, Some(now_ms)),
        !spec_on_scroll(s, step, threshold, cooldown_ms, now_ms).1 ==> spec_on_scroll(
            s,
            step,
            threshold,
            cooldown_ms,
            now_ms,
        ).0 == ((s.0 + step) as u64, s.1),
{
}

// ---------------------------------------------------------------------------
// Engine state
// ---------------------------------------------------------------------------

/// Engine-level options chosen at start-up.
pub struct EngineConfig {
    pub hid_backend: HidBackend,
    pub debug: bool,
}

impl Default for EngineConfig {
    fn default() -> (r: Self)
        ensures
            r.hid_backend == HidBackend::Auto,
            !r.debug,
    {
        EngineConfig { hid_backend: HidBackend::Auto, debug: false }
    }
}

/// The engine's state: the configuration in force, the profile whose
/// mappings are wired, whether actions run, whether debug output is on,
/// and the scroll accumulators of the two directions.
pub struct Engine {
    pub config: Config,
    pub current_profile: String,
    pub enabled: bool,
    pub debug_enabled: bool,
    pub hscroll_left: HScrollState,
    pub hscroll_right: HScrollState,
}

pub open spec fn opt_string_view(o: Option<String>) -> Option<Seq<char>> {
    match o {
        Some(s) => Some(s@),
        None => None,
    }
}

/// The profile to switch to when `exe_name` comes to the foreground: the
/// application's profile, while actions are enabled and it is not the
/// current one already.
pub open spec fn spec_app_switch(
    profiles: Seq<(Seq<char>, Profile)>,
    current: Seq<char>,
    enabled: bool,
    exe_name: Seq<char>,
) -> Option<Seq<char>> {
    let target = profile_for_app(profiles, str_lower(exe_name));
    if enabled && target != current {
        Some(target)
    } else {
        None
    }
}

/// The current profile after `exe_name` came to the foreground.
pub open spec fn settled_profile(
    profiles: Seq<(Seq<char>, Profile)>,
    current: Seq<char>,
    enabled: bool,
    exe_name: Seq<char>,
) -> Seq<char> {
    match spec_app_switch(profiles, current, enabled, exe_name) {
        Some(t) => t,
        None => current,
    }
}

/// Whether the configuration has a profile whose mappings can be wired.
pub open spec fn wirable(cfg: Config) -> bool {
    &&& cfg.wf()
    &&& (has_key(cfg.profiles.view(), cfg.active_profile@) || has_key(cfg.profiles.view(), "default"@))
}

/// A wheel magnitude in thousandths of a step.
pub open spec fn bound_scroll_milli(delta: Option<u32>) -> Option<i64> {
    match delta {
        Some(d) => Some((d * 1000) as i64),
        None => None,
    }
}

/// The two direction accumulators after a horizontal-scroll event of one
/// direction, and whether it fires.
pub open spec fn spec_hscroll_event(
    left: bool,
    action: Seq<char>,
    delta_milli: Option<i64>,
    threshold: u64,
    now_ms: u64,
    l: (u64, Option<u64>),
    r: (u64, Option<u64>),
) -> ((u64, Option<u64>), (u64, Option<u64>), bool) {
    let step = spec_scroll_step(delta_milli);
    let cooldown = spec_hscroll_cooldown(action);
    if left {
        let o = spec_on_scroll(l, step, threshold, cooldown, now_ms);
        (o.0, r, o.1)
    } else {
        let o = spec_on_scroll(r, step, threshold, cooldown, now_ms);
        (l, o.0, o.1)
    }
}

impl Engine {
    pub open spec fn wf(&self) -> bool {
        self.config.wf()
    }

    /// A new engine for `cfg`: the active profile is current, actions are
    /// enabled, debug output follows the setting or the start-up option,
    /// nothing is accumulated.
    pub fn new(cfg: Config, engine_config: &EngineConfig) -> (r: Engine)
        requires
            cfg.wf(),
        ensures
            r.wf(),
            r.config == cfg,
            r.current_profile@ == cfg.active_profile@,
            r.enabled,
            r.debug_enabled == (cfg.settings.debug_mode || engine_config.debug),
            r.hscroll_left.model() == (0u64, None::<u64>),
            r.hscroll_right.model() == (0u64, None::<u64>),
    {
        let debug_enabled = cfg.settings.debug_mode || engine_config.debug;
        let current_profile = cfg.active_profile.clone();
        Engine {
            config: cfg,
            current_profile,
            enabled: true,
            debug_enabled,
            hscroll_left: HScrollState::new(),
            hscroll_right: HScrollState::new(),
        }
    }

    /// The hook registrations for the active profile (the default profile
    /// when the active one is missing), with the scroll threshold in force.
    pub fn bindings(&self) -> (r: Vec<Binding>)
        requires
            wirable(self.config),
        ensures
            bindings_view(r@) == mapping_bindings(
                string_entries(lookup(self.config.profiles.view(), active_profile_key(&self.config)).unwrap().mappings.view()),
                spec_hscroll_threshold(self.config.settings.hscroll_threshold_milli),
            ),
    {
        let mappings = get_active_mappings(&self.config);
        let threshold = hscroll_threshold_milli(self.config.settings.hscroll_threshold_milli);
        hook_bindings(mappings, threshold)
    }

    /// The foreground application changed to `exe_name`.  While actions
    /// are enabled, the profile for the application becomes the active
    /// and current one when it differs from the current one; the new
    /// profile's name is returned so that the hook is re-wired.
    pub fn on_app_change(&mut self, exe_name: &str) -> (switched: Option<String>)
        requires
            old(self).wf(),
        ensures
            final(self).wf(),
            final(self).enabled == old(self).enabled,
            final(self).debug_enabled == old(self).debug_enabled,
            final(self).hscroll_left == old(self).hscroll_left,
            final(self).hscroll_right == old(self).hscroll_right,
            final(self).config.profiles == old(self).config.profiles,
            final(self).config.settings == old(self).config.settings,
            final(self).config.version == old(self).config.version,
            opt_string_view(switched) == spec_app_switch(
                old(self).config.profiles.view(),
                old(self).current_profile@,
                old(self).enabled,
                exe_name@,
            ),
            final(self).current_profile@ == settled_profile(
                old(self).config.profiles.view(),
                old(self).current_profile@,
                old(self).enabled,
                exe_name@,
            ),
            switched is Some ==> final(self).config.active_profile@ == final(self).current_profile@,
            switched is None ==> final(self).config.active_profile == old(self).config.active_profile,
    {
        if !self.enabled {
            return None;
        }
        let target = get_profile_for_app(&self.config, exe_name);
        if str_eq(self.current_profile.as_str(), target.as_str()) {
            return None;
        }
        self.current_profile = target.clone();
        self.config.active_profile = target.clone();
        Some(target)
    }

    /// The configuration was read again: it replaces the one in force and
    /// its active profile becomes current.
    pub fn reload(&mut self, fresh: Config)
        requires
            fresh.wf(),
        ensures
            final(self).wf(),
            final(self).config == fresh,
            final(self).current_profile@ == fresh.active_profile@,
            final(self).enabled == old(self).enabled,
            final(self).debug_enabled == old(self).debug_enabled,
            final(self).hscroll_left == old(self).hscroll_left,
            final(self).hscroll_right == old(self).hscroll_right,
    {
        self.current_profile = fresh.active_profile.clone();
        self.config = fresh;
    }

    /// Records a DPI change and gives the value sent to the device (the
    /// low 16 bits of `dpi`).
    pub fn set_dpi(&mut self, dpi: u32) -> (sent: u16)
        requires
            old(self).wf(),
        ensures
            final(self).wf(),
            final(self).config == (Config { settings: Settings { dpi: dpi, ..old(self).config.settings }, ..old(self).config }),
            final(self).current_profile == old(self).current_profile,
            final(self).enabled == old(self).enabled,
            final(self).debug_enabled == old(self).debug_enabled,
            final(self).hscroll_left == old(self).hscroll_left,
            final(self).hscroll_right == old(self).hscroll_right,
            sent == dpi as u16,
    {
        self.config.settings.dpi = dpi;
        dpi as u16
    }

    /// Records a Smart Shift mode change.
    pub fn set_smart_shift(&mut self, mode: &str)
        requires
            old(self).wf(),
        ensures
            final(self).wf(),
            final(self).config.settings.smart_shift_mode@ == mode@,
            final(self).config.settings.dpi == old(self).config.settings.dpi,
            final(self).config.profiles == old(self).config.profiles,
            final(self).config.active_profile == old(self).config.active_profile,
            final(self).current_profile == old(self).current_profile,
            final(self).enabled == old(self).enabled,
            final(self).debug_enabled == old(self).debug_enabled,
            final(self).hscroll_left == old(self).hscroll_left,
            final(self).hscroll_right == old(self).hscroll_right,
    {
        self.config.settings.smart_shift_mode = mode.to_owned();
    }

    /// Turns debug output on or off, in the engine and in the settings.
    pub fn set_debug_enabled(&mut self, enabled: bool)
        requires
            old(self).wf(),
        ensures
            final(self).wf(),
            final(self).debug_enabled == enabled,
            final(self).config.settings.debug_mode == enabled,
            final(self).config.settings.dpi == old(self).config.settings.dpi,
            final(self).config.profiles == old(self).config.profiles,
            final(self).config.active_profile == old(self).config.active_profile,
            final(self).current_profile == old(self).current_profile,
            final(self).enabled == old(self).enabled,
    {
        self.debug_enabled = enabled;
        self.config.settings.debug_mode = enabled;
    }

    /// Turns action dispatch on or off; events stay intercepted.
    pub fn set_enabled(&mut self, enabled: bool)
        ensures
            final(self).enabled == enabled,
            final(self).config == old(self).config,
            final(self).current_profile == old(self).current_profile,
            final(self).debug_enabled == old(self).debug_enabled,
            final(self).hscroll_left == old(self).hscroll_left,
            final(self).hscroll_right == old(self).hscroll_right,
    {
        self.enabled = enabled;
    }

    /// A horizontal-scroll event reached a handled binding.  While actions
    /// are enabled it goes through the accumulator of its direction, with
    /// the cooldown of the bound action; the result says whether the
    /// action runs now.  While disabled nothing changes.
    pub fn on_hscroll(
        &mut self,
        left: bool,
        action_id: &str,
        delta_milli: Option<i64>,
        threshold_milli: u64,
        now_ms: u64,
    ) -> (fire: bool)
        ensures
            final(self).config == old(self).config,
            final(self).current_profile == old(self).current_profile,
            final(self).enabled == old(self).enabled,
            final(self).debug_enabled == old(self).debug_enabled,
            !old(self).enabled ==> !fire && final(self).hscroll_left == old(self).hscroll_left
                && final(self).hscroll_right == old(self).hscroll_right,
            old(self).enabled ==> {
                let step = spec_scroll_step(delta_milli);
                let cooldown = spec_hscroll_cooldown(action_id@);
                if left {
                    &&& (final(self).hscroll_left.model(), fire) == spec_on_scroll(
                        old(self).hscroll_left.model(),
                        step,
                        threshold_milli,
                        cooldown,
                        now_ms,
                    )
                    &&& final(self).hscroll_right == old(self).hscroll_right
                } else {
                    &&& (final(self).hscroll_right.model(), fire) == spec_on_scroll(
                        old(self).hscroll_right.model(),
                        step,
                        threshold_milli,
                        cooldown,
                        now_ms,
                    )
                    &&& final(self).hscroll_left == old(self).hscroll_left
                }
            },
    {
        if !self.enabled {
            return false;
        }
        let step = scroll_step_milli(delta_milli);
        let cooldown = hscroll_cooldown_ms(action_id);
        if left {
            self.hscroll_left.on_scroll(step, threshold_milli, cooldown, now_ms)
        } else {
            self.hscroll_right.on_scroll(step, threshold_milli, cooldown, now_ms)
        }
    }

    /// A hooked event reached the handled binding `b`, with the magnitude
    /// of its scroll when it is a wheel event.  While actions are enabled
    /// the binding's action runs at once, or through the accumulator of
    /// its direction for a horizontal-scroll binding; the result is the
    /// action to run now.  While disabled nothing runs and nothing changes.
    pub fn on_bound_event(&mut self, b: &Binding, scroll_delta: Option<u32>, now_ms: u64) -> (r: Option<String>)
        ensures
            final(self).config == old(self).config,
            final(self).current_profile == old(self).current_profile,
            final(self).enabled == old(self).enabled,
            final(self).debug_enabled == old(self).debug_enabled,
            !old(self).enabled ==> r is None && final(self).hscroll_left == old(self).hscroll_left
                && final(self).hscroll_right == old(self).hscroll_right,
            old(self).enabled && !b.hscroll ==> (r matches Some(a) && a@ == b.action@)
                && final(self).hscroll_left == old(self).hscroll_left
                && final(self).hscroll_right == old(self).hscroll_right,
            old(self).enabled && b.hscroll ==> {
                let out = spec_hscroll_event(
                    b.event == MouseEventType::HScrollLeft,
                    b.action@,
                    bound_scroll_milli(scroll_delta),
                    b.threshold_milli,
                    now_ms,
                    old(self).hscroll_left.model(),
                    old(self).hscroll_right.model(),
                );
                &&& final(self).hscroll_left.model() == out.0
                &&& final(self).hscroll_right.model() == out.1
                &&& out.2 ==> (r matches Some(a) && a@ == b.action@)
                &&& !out.2 ==> r is None
            },
    {
        if !self.enabled {
            return None;
        }
        if !b.hscroll {
            return Some(b.action.clone());
        }
        let delta_milli: Option<i64> = match scroll_delta {
            Some(d) => Some(d as i64 * 1000),
            None => None,
        };
        let left = b.event == MouseEventType::HScrollLeft;
        if self.on_hscroll(left, b.action.as_str(), delta_milli, b.threshold_milli, now_ms) {
            Some(b.action.clone())
        } else {
            None
        }
    }
}

/// A second report of the same foreground application switches nothing.
pub proof fn lemma_app_change_settles(
    profiles: Seq<(Seq<char>, Profile)>,
    current: Seq<char>,
    enabled: bool,
    exe_name: Seq<char>,
)
    ensures
        spec_app_switch(profiles, settled_profile(profiles, current, enabled, exe_name), enabled, exe_name) is None,
{
}

/// While actions are enabled, the current profile after a report is the
/// profile of the reported application.
pub proof fn lemma_app_change_follows_app(
    profiles: Seq<(Seq<char>, Profile)>,
    current: Seq<char>,
    exe_name: Seq<char>,
)
    ensures
        settled_profile(profiles, current, true, exe_name) == profile_for_app(profiles, str_lower(exe_name)),
{
}

} // verus!
