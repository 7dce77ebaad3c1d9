//! Mouse-hook logic shared by every platform: the event vocabulary, the
//! gesture detector (tap vs. swipe, direction, timeouts, cooldown, source
//! locking) and the per-platform decisions on raw input events (which event
//! to report and whether to swallow the original).
//!
//! Times are milliseconds on a monotonic clock, handed in by the caller.

use vstd::prelude::*;
use crate::text::{chars_eq, chars_of};

verus! {

/// A captured mouse event.
#[derive(Clone, Copy, PartialEq, Eq, Structural, Debug, Hash)]
pub enum MouseEvent {
    XButton1Down,
    XButton1Up,
    XButton2Down,
    XButton2Up,
    MiddleDown,
    MiddleUp,
    /// Gesture button held down (from the HID listener).
    GestureDown,
    /// Gesture button released (from the HID listener).
    GestureUp,
    /// Tap on the gesture button without a swipe.
    GestureClick,
    GestureSwipeLeft,
    GestureSwipeRight,
    GestureSwipeUp,
    GestureSwipeDown,
    HScrollLeft,
    HScrollRight,
    ModeShiftDown,
    ModeShiftUp,
}

/// Which event type a callback or a block applies to.
#[derive(Clone, Copy, PartialEq, Eq, Structural, Debug, Hash)]
pub enum MouseEventType {
    XButton1Down,
    XButton1Up,
    XButton2Down,
    XButton2Up,
    MiddleDown,
    MiddleUp,
    GestureDown,
    GestureUp,
    GestureClick,
    GestureSwipeLeft,
    GestureSwipeRight,
    GestureSwipeUp,
    GestureSwipeDown,
    HScrollLeft,
    HScrollRight,
    ModeShiftDown,
    ModeShiftUp,
}

/// The event type of an event: the variant of the same name.
pub open spec fn event_type_of(e: MouseEvent) -> MouseEventType {
    match e {
        MouseEvent::XButton1Down => MouseEventType::XButton1Down,
        MouseEvent::XButton1Up => MouseEventType::XButton1Up,
        MouseEvent::XButton2Down => MouseEventType::XButton2Down,
        MouseEvent::XButton2Up => MouseEventType::XButton2Up,
        MouseEvent::MiddleDown => MouseEventType::MiddleDown,
        MouseEvent::MiddleUp => MouseEventType::MiddleUp,
        MouseEvent::GestureDown => MouseEventType::GestureDown,
        MouseEvent::GestureUp => MouseEventType::GestureUp,
        MouseEvent::GestureClick => MouseEventType::GestureClick,
        MouseEvent::GestureSwipeLeft => MouseEventType::GestureSwipeLeft,
        MouseEvent::GestureSwipeRight => MouseEventType::GestureSwipeRight,
        MouseEvent::GestureSwipeUp => MouseEventType::GestureSwipeUp,
        MouseEvent::GestureSwipeDown => MouseEventType::GestureSwipeDown,
        MouseEvent::HScrollLeft => MouseEventType::HScrollLeft,
        MouseEvent::HScrollRight => MouseEventType::HScrollRight,
        MouseEvent::ModeShiftDown => MouseEventType::ModeShiftDown,
        MouseEvent::ModeShiftUp => MouseEventType::ModeShiftUp,
    }
}

impl From<MouseEvent> for MouseEventType {
    fn from(e: MouseEvent) -> (r: Self) {
        match e {
            MouseEvent::XButton1Down => MouseEventType::XButton1Down,
            MouseEvent::XButton1Up => MouseEventType::XButton1Up,
            MouseEvent::XButton2Down => MouseEventType::XButton2Down,
            MouseEvent::XButton2Up => MouseEventType::XButton2Up,
            MouseEvent::MiddleDown => MouseEventType::MiddleDown,
            MouseEvent::MiddleUp => MouseEventType::MiddleUp,
            MouseEvent::GestureDown => MouseEventType::GestureDown,
            MouseEvent::GestureUp => MouseEventType::GestureUp,
            MouseEvent::GestureClick => MouseEventType::GestureClick,
            MouseEvent::GestureSwipeLeft => MouseEventType::GestureSwipeLeft,
            MouseEvent::GestureSwipeRight => MouseEventType::GestureSwipeRight,
            MouseEvent::GestureSwipeUp => MouseEventType::GestureSwipeUp,
            MouseEvent::GestureSwipeDown => MouseEventType::GestureSwipeDown,
            MouseEvent::HScrollLeft => MouseEventType::HScrollLeft,
            MouseEvent::HScrollRight => MouseEventType::HScrollRight,
            MouseEvent::ModeShiftDown => MouseEventType::ModeShiftDown,
            MouseEvent::ModeShiftUp => MouseEventType::ModeShiftUp,
        }
    }
}

impl vstd::std_specs::convert::FromSpecImpl<MouseEvent> for MouseEventType {
    open spec fn obeys_from_spec() -> bool {
        true
    }

    open spec fn from_spec(e: MouseEvent) -> MouseEventType {
        event_type_of(e)
    }
}

// ---------------------------------------------------------------------------
// Gesture configuration
// ---------------------------------------------------------------------------

/// Tuning knobs for the gesture detector.
///
/// * `threshold`   – minimum displacement to fire a swipe.
/// * `deadzone`    – cross-axis tolerance (kept for configuration).
/// * `timeout_ms`  – idle time after which the accumulated motion restarts.
/// * `cooldown_ms` – after a gesture fires, input is ignored this long.
/// * `confirm_ms`  – how long a candidate direction must stay stable before
///                   it fires; 0 fires at once.
#[derive(Clone, Copy, PartialEq, Eq, Structural, Debug)]
pub struct GestureConfig {
    pub threshold: u32,
    pub deadzone: u32,
    pub timeout_ms: u32,
    pub cooldown_ms: u32,
    pub confirm_ms: u64,
}

impl Default for GestureConfig {
    fn default() -> (r: Self)
        ensures
            r == (GestureConfig { threshold: 50, deadzone: 40, timeout_ms: 3000, cooldown_ms: 500, confirm_ms: 80 }),
    {
        GestureConfig { threshold: 50, deadzone: 40, timeout_ms: 3000, cooldown_ms: 500, confirm_ms: 80 }
    }
}

// ---------------------------------------------------------------------------
// Direction classification
// ---------------------------------------------------------------------------

/// Cardinal direction of an accumulated displacement, or none below the
/// threshold.  The plane is cut into four 90° cones centred on the axes
/// (screen coordinates, y grows downwards), as `atan2` would cut it:
/// right covers [-45°, 45°), down [45°, 135°), up [-135°, -45°), left the
/// rest; no motion at all counts as right, `atan2(0, 0)` being 0°.
pub open spec fn classify(dx: int, dy: int, threshold: u32) -> Option<MouseEvent> {
    if dx * dx + dy * dy < threshold * threshold {
        None
    } else if (dx > 0 && -dx <= dy && dy < dx) || (dx == 0 && dy == 0) {
        Some(MouseEvent::GestureSwipeRight)
    } else if dy > 0 && -dy < dx && dx <= dy {
        Some(MouseEvent::GestureSwipeDown)
    } else if dy < 0 && dy <= dx && dx < -dy {
        Some(MouseEvent::GestureSwipeUp)
    } else {
        Some(MouseEvent::GestureSwipeLeft)
    }
}

/// Accumulated displacement is exact across the whole `i64` range and
/// saturates only at its ends, some 2^31 full-scale `i32` reports away.
pub const DELTA_LIMIT: i64 = 0x7fff_ffff_ffff_ffff;

pub open spec fn clamp_delta(v: int) -> int {
    if v > DELTA_LIMIT { DELTA_LIMIT as int } else if v < -DELTA_LIMIT { -DELTA_LIMIT } else { v }
}

fn add_delta(a: i64, b: i32) -> (r: i64)
    requires
        -DELTA_LIMIT <= a <= DELTA_LIMIT,
    ensures
        r == clamp_delta(a + b),
        -DELTA_LIMIT <= r <= DELTA_LIMIT,
{
    let s: i128 = a as i128 + b as i128;
    if s > DELTA_LIMIT as i128 {
        DELTA_LIMIT
    } else if s < -(DELTA_LIMIT as i128) {
        -DELTA_LIMIT
    } else {
        s as i64
    }
}

/// Magnitude of a signed displacement.
fn magnitude(v: i64) -> (r: u128)
    ensures
        r == (if v < 0 { -v } else { v as int }),
        r <= 0x8000_0000_0000_0000,
{
    if v < 0 {
        (-(v as i128)) as u128
    } else {
        v as u128
    }
}

/// Classifies an accumulated displacement.
pub fn classify_direction(dx: i64, dy: i64, threshold: u32) -> (r: Option<MouseEvent>)
    ensures
        r == classify(dx as int, dy as int, threshold),
{
    let ax = magnitude(dx);
    let ay = magnitude(dy);
    assert(ax * ax <= 0x4000_0000_0000_0000_0000_0000_0000_0000 && ay * ay <= 0x4000_0000_0000_0000_0000_0000_0000_0000) by (nonlinear_arith)
        requires
            ax <= 0x8000_0000_0000_0000,
            ay <= 0x8000_0000_0000_0000,
    ;
    assert(ax * ax == dx * dx && ay * ay == dy * dy) by (nonlinear_arith)
        requires
            ax == (if dx < 0 { -dx } else { dx as int }),
            ay == (if dy < 0 { -dy } else { dy as int }),
    ;
    let t = threshold as u128;
    assert(t * t <= 0xffff_ffff * 0xffff_ffff) by (nonlinear_arith)
        requires
            t <= 0xffff_ffff,
    ;
    let sq = ax * ax + ay * ay;
    if sq < t * t {
        None
    } else if (dx > 0 && -(dx as i128) <= dy as i128 && dy < dx) || (dx == 0 && dy == 0) {
        Some(MouseEvent::GestureSwipeRight)
    } else if dy > 0 && -(dy as i128) < dx as i128 && dx <= dy {
        Some(MouseEvent::GestureSwipeDown)
    } else if dy < 0 && dy <= dx && (dx as i128) < -(dy as i128) {
        Some(MouseEvent::GestureSwipeUp)
    } else {
        Some(MouseEvent::GestureSwipeLeft)
    }
}

// ---------------------------------------------------------------------------
// Gesture detector
// ---------------------------------------------------------------------------

/// Tap / swipe state machine fed by gesture-button edges and relative
/// motion from one of several input sources.
pub struct GestureDetector {
    pub config: GestureConfig,
    pub enabled: bool,
    active: bool,
    tracking: bool,
    triggered: bool,
    delta_x: i64,
    delta_y: i64,
    input_source: Option<String>,
    started_at: Option<u64>,
    last_move_at: Option<u64>,
    cooldown_until: Option<u64>,
    candidate_dir: Option<MouseEvent>,
    candidate_since: Option<u64>,
}

/// The content of a gesture detector.
pub struct DetectorView {
    pub config: GestureConfig,
    pub enabled: bool,
    /// The gesture button is down.
    pub active: bool,
    /// Motion is being accumulated.
    pub tracking: bool,
    /// A swipe fired during the current press.
    pub triggered: bool,
    pub delta_x: int,
    pub delta_y: int,
    /// The source that motion is locked to, if any.
    pub input_source: Option<Seq<char>>,
    pub started_at: Option<u64>,
    pub last_move_at: Option<u64>,
    pub cooldown_until: Option<u64>,
    pub candidate_dir: Option<MouseEvent>,
    pub candidate_since: Option<u64>,
}

pub open spec fn opt_str_view(o: Option<String>) -> Option<Seq<char>> {
    match o {
        Some(s) => Some(s@),
        None => None,
    }
}

impl View for GestureDetector {
    type V = DetectorView;

    closed spec fn view(&self) -> DetectorView {
        DetectorView {
            config: self.config,
            enabled: self.enabled,
            active: self.active,
            tracking: self.tracking,
            triggered: self.triggered,
            delta_x: self.delta_x as int,
            delta_y: self.delta_y as int,
            input_source: opt_str_view(self.input_source),
            started_at: self.started_at,
            last_move_at: self.last_move_at,
            cooldown_until: self.cooldown_until,
            candidate_dir: self.candidate_dir,
            candidate_since: self.candidate_since,
        }
    }
}

/// Elapsed milliseconds from `earlier` to `now`, zero if the clock went back.
pub open spec fn elapsed(now: u64, earlier: u64) -> int {
    if now >= earlier { now - earlier } else { 0 }
}

/// `t + ms`, saturating at the clock's largest value.
pub open spec fn later(t: u64, ms: u64) -> u64 {
    if t + ms > u64::MAX { u64::MAX } else { (t + ms) as u64 }
}

pub open spec fn cooldown_active(d: DetectorView, now: u64) -> bool {
    match d.cooldown_until {
        Some(t) => now < t,
        None => false,
    }
}

pub open spec fn start_tracking(d: DetectorView, now: u64) -> DetectorView {
    DetectorView {
        tracking: d.enabled,
        started_at: Some(now),
        last_move_at: Some(now),
        delta_x: 0,
        delta_y: 0,
        input_source: None,
        ..d
    }
}

pub open spec fn finish_tracking(d: DetectorView) -> DetectorView {
    DetectorView {
        tracking: false,
        started_at: None,
        last_move_at: None,
        delta_x: 0,
        delta_y: 0,
        input_source: None,
        candidate_dir: None,
        candidate_since: None,
        ..d
    }
}

pub open spec fn spec_configure(d: DetectorView, c: GestureConfig) -> DetectorView {
    DetectorView {
        config: GestureConfig {
            threshold: if c.threshold < 5 { 5 } else { c.threshold },
            deadzone: c.deadzone,
            timeout_ms: if c.timeout_ms < 250 { 250 } else { c.timeout_ms },
            cooldown_ms: c.cooldown_ms,
            confirm_ms: c.confirm_ms,
        },
        ..d
    }
}

pub open spec fn spec_set_enabled(d: DetectorView, enabled: bool) -> DetectorView {
    if enabled {
        DetectorView { enabled: true, ..d }
    } else {
        DetectorView { enabled: false, tracking: false, triggered: false, input_source: None, ..d }
    }
}

pub open spec fn spec_button_down(d: DetectorView, now: u64) -> DetectorView {
    if d.active {
        d
    } else {
        let d1 = DetectorView { active: true, triggered: false, ..d };
        if d1.enabled && !cooldown_active(d1, now) {
            start_tracking(d1, now)
        } else {
            DetectorView { tracking: false, triggered: false, ..d1 }
        }
    }
}

pub open spec fn spec_button_up(d: DetectorView) -> (DetectorView, Option<MouseEvent>) {
    if !d.active {
        (d, None)
    } else {
        let click = !d.triggered;
        let d1 = DetectorView { triggered: false, ..finish_tracking(DetectorView { active: false, ..d }) };
        (d1, if click { Some(MouseEvent::GestureClick) } else { None })
    }
}

/// The detector after a swipe fired.
pub open spec fn fired(d: DetectorView, now: u64) -> DetectorView {
    finish_tracking(DetectorView {
        triggered: true,
        cooldown_until: Some(later(now, d.config.cooldown_ms as u64)),
        ..d
    })
}

pub open spec fn is_low_fidelity(src: Option<Seq<char>>) -> bool {
    src == Some("event_tap"@) || src == Some("evdev"@)
}

pub open spec fn spec_accumulate(d: DetectorView, dx: i32, dy: i32, source: Seq<char>, now: u64) -> (DetectorView, Option<MouseEvent>) {
    if !d.enabled || !d.active || d.triggered {
        (d, None)
    } else if cooldown_active(d, now) {
        (d, None)
    } else {
        let d1 = if !d.tracking { start_tracking(d, now) } else { d };
        let d2 = match d1.last_move_at {
            Some(lm) => if elapsed(now, lm) > d1.config.timeout_ms { start_tracking(d1, now) } else { d1 },
            None => d1,
        };
        let d3 = if source == "hid_rawxy"@ && is_low_fidelity(d2.input_source) { start_tracking(d2, now) } else { d2 };
        if d3.input_source is Some && d3.input_source != Some(source) {
            (d3, None)
        } else {
            let d4 = DetectorView {
                input_source: Some(source),
                delta_x: clamp_delta(d3.delta_x + dx),
                delta_y: clamp_delta(d3.delta_y + dy),
                last_move_at: Some(now),
                ..d3
            };
            match classify(d4.delta_x, d4.delta_y, d4.config.threshold) {
                None => (DetectorView { candidate_dir: None, candidate_since: None, ..d4 }, None),
                Some(dir) => {
                    if d4.config.confirm_ms == 0 {
                        (fired(d4, now), Some(dir))
                    } else if d4.candidate_dir == Some(dir) {
                        match d4.candidate_since {
                            Some(since) => if elapsed(now, since) >= d4.config.confirm_ms {
                                (fired(d4, now), Some(dir))
                            } else {
                                (d4, None)
                            },
                            None => (d4, None),
                        }
                    } else {
                        (DetectorView { candidate_dir: Some(dir), candidate_since: Some(now), ..d4 }, None)
                    }
                },
            }
        }
    }
}

fn elapsed_ms(now: u64, earlier: u64) -> (r: u64)
    ensures
        r == elapsed(now, earlier),
{
    if now >= earlier { now - earlier } else { 0 }
}

fn later_ms(t: u64, ms: u64) -> (r: u64)
    ensures
        r == later(t, ms),
{
    if t > u64::MAX - ms { u64::MAX } else { t + ms }
}

impl GestureDetector {
    /// The well-formedness every detector keeps: bounded accumulators.
    pub closed spec fn wf(&self) -> bool {
        -DELTA_LIMIT <= self.delta_x <= DELTA_LIMIT && -DELTA_LIMIT <= self.delta_y <= DELTA_LIMIT
    }

    /// A disabled, idle detector.
    pub fn new(config: GestureConfig) -> (r: GestureDetector)
        ensures
            r.wf(),
            r@ == (DetectorView {
                config,
                enabled: false,
                active: false,
                tracking: false,
                triggered: false,
                delta_x: 0,
                delta_y: 0,
                input_source: None,
                started_at: None,
                last_move_at: None,
                cooldown_until: None,
                candidate_dir: None,
                candidate_since: None,
            }),
    {
        GestureDetector {
            config,
            enabled: false,
            active: false,
            tracking: false,
            triggered: false,
            delta_x: 0,
            delta_y: 0,
            input_source: None,
            started_at: None,
            last_move_at: None,
            cooldown_until: None,
            candidate_dir: None,
            candidate_since: None,
        }
    }

    /// Applies new tuning; the threshold is at least 5 and the timeout at
    /// least 250 ms.
    pub fn configure(&mut self, config: GestureConfig)
        requires
            old(self).wf(),
        ensures
            final(self).wf(),
            final(self)@ == spec_configure(old(self)@, config),
    {
        self.config = GestureConfig {
            threshold: if config.threshold < 5 { 5 } else { config.threshold },
            deadzone: config.deadzone,
            timeout_ms: if config.timeout_ms < 250 { 250 } else { config.timeout_ms },
            cooldown_ms: config.cooldown_ms,
            confirm_ms: config.confirm_ms,
        };
    }

    /// Turns detection on or off; turning it off drops any tracking.
    pub fn set_enabled(&mut self, enabled: bool)
        requires
            old(self).wf(),
        ensures
            final(self).wf(),
            final(self)@ == spec_set_enabled(old(self)@, enabled),
    {
        self.enabled = enabled;
        if !enabled {
            self.tracking = false;
            self.triggered = false;
            self.input_source = None;
        }
    }

    fn start_tracking(&mut self, now: u64)
        requires
            old(self).wf(),
        ensures
            final(self).wf(),
            final(self)@ == start_tracking(old(self)@, now),
    {
        self.tracking = self.enabled;
        self.started_at = Some(now);
        self.last_move_at = Some(now);
        self.delta_x = 0;
        self.delta_y = 0;
        self.input_source = None;
    }

    fn finish_tracking(&mut self)
        requires
            old(self).wf(),
        ensures
            final(self).wf(),
            final(self)@ == finish_tracking(old(self)@),
    {
        self.tracking = false;
        self.started_at = None;
        self.last_move_at = None;
        self.delta_x = 0;
        self.delta_y = 0;
        self.input_source = None;
        self.candidate_dir = None;
        self.candidate_since = None;
    }

    fn cooldown_active(&self, now: u64) -> (r: bool)
        ensures
            r == cooldown_active(self@, now),
    {
        match self.cooldown_until {
            Some(t) => now < t,
            None => false,
        }
    }

    /// The gesture button went down at `now`.
    pub fn on_button_down(&mut self, now: u64)
        requires
            old(self).wf(),
        ensures
            final(self).wf(),
            final(self)@ == spec_button_down(old(self)@, now),
    {
        if self.active {
            return;
        }
        self.active = true;
        self.triggered = false;
        if self.enabled && !self.cooldown_active(now) {
            self.start_tracking(now);
        } else {
            self.tracking = false;
            self.triggered = false;
        }
    }

    /// The gesture button went up.  Gives a click when no swipe fired
    /// during the press.
    pub fn on_button_up(&mut self) -> (r: Option<MouseEvent>)
        requires
            old(self).wf(),
        ensures
            final(self).wf(),
            (final(self)@, r) == spec_button_up(old(self)@),
    {
        if !self.active {
            return None;
        }
        let should_click = !self.triggered;
        self.active = false;
        self.finish_tracking();
        self.triggered = false;
        if should_click {
            Some(MouseEvent::GestureClick)
        } else {
            None
        }
    }

    fn fire(&mut self, now: u64)
        requires
            old(self).wf(),
        ensures
            final(self).wf(),
            final(self)@ == fired(old(self)@, now),
    {
        self.triggered = true;
        self.cooldown_until = Some(later_ms(now, self.config.cooldown_ms as u64));
        self.finish_tracking();
    }

    /// Relative motion `(dx, dy)` from `source` at `now`.  Gives a swipe
    /// when the accumulated displacement crosses the threshold and (unless
    /// `confirm_ms` is 0) its direction has stayed the same for
    /// `confirm_ms`.  A disabled detector never gives an event.
    pub fn accumulate(&mut self, dx: i32, dy: i32, source: &str, now: u64) -> (r: Option<MouseEvent>)
        requires
            old(self).wf(),
        ensures
            final(self).wf(),
            (final(self)@, r) == spec_accumulate(old(self)@, dx, dy, source@, now),
            !old(self)@.enabled ==> r is None,
    {
        if !self.enabled || !self.active || self.triggered {
            return None;
        }
        if self.cooldown_active(now) {
            return None;
        }
        if !self.tracking {
            self.start_tracking(now);
        }
        match self.last_move_at {
            Some(lm) => {
                let idle = elapsed_ms(now, lm);
                if idle > self.config.timeout_ms as u64 {
                    self.start_tracking(now);
                }
            },
            None => {},
        }
        let src = chars_of(source);
        let rawxy = chars_of("hid_rawxy");
        if chars_eq(&src, &rawxy) {
            let low = match &self.input_source {
                Some(cur) => {
                    let c = chars_of(cur.as_str());
                    let tap = chars_of("event_tap");
                    let ev = chars_of("evdev");
                    chars_eq(&c, &tap) || chars_eq(&c, &ev)
                },
                None => false,
            };
            if low {
                self.start_tracking(now);
            }
        }
        let locked_elsewhere = match &self.input_source {
            Some(cur) => {
                let c = chars_of(cur.as_str());
                !chars_eq(&c, &src)
            },
            None => false,
        };
        if locked_elsewhere {
            return None;
        }
        self.input_source = Some(source.to_owned());
        self.delta_x = add_delta(self.delta_x, dx);
        self.delta_y = add_delta(self.delta_y, dy);
        self.last_move_at = Some(now);

        let dir = match classify_direction(self.delta_x, self.delta_y, self.config.threshold) {
            Some(d) => d,
            None => {
                self.candidate_dir = None;
                self.candidate_since = None;
                return None;
            },
        };
        if self.config.confirm_ms == 0 {
            self.fire(now);
            return Some(dir);
        }
        if self.candidate_dir == Some(dir) {
            match self.candidate_since {
                Some(since) => {
                    if elapsed_ms(now, since) >= self.config.confirm_ms {
                        self.fire(now);
                        return Some(dir);
                    }
                },
                None => {},
            }
            None
        } else {
            self.candidate_dir = Some(dir);
            self.candidate_since = Some(now);
            None
        }
    }
}

/// Once a swipe has fired, releasing the button gives no click.
pub proof fn lemma_swipe_suppresses_click(d: DetectorView, dx: i32, dy: i32, source: Seq<char>, now: u64)
    requires
        spec_accumulate(d, dx, dy, source, now).1 is Some,
    ensures
        spec_button_up(spec_accumulate(d, dx, dy, source, now).0).1 is None,
        spec_accumulate(d, dx, dy, source, now).0.triggered,
{
}

/// A press and release with no swipe in between gives exactly one click.
pub proof fn lemma_press_release_clicks(d: DetectorView, now: u64)
    requires
        !d.active,
    ensures
        spec_button_up(spec_button_down(d, now)).1 == Some(MouseEvent::GestureClick),
        !spec_button_up(spec_button_down(d, now)).0.active,
{
}

/// After a swipe fired, further motion during the same press gives nothing
/// and changes nothing.
pub proof fn lemma_one_swipe_per_press(d: DetectorView, dx: i32, dy: i32, source: Seq<char>, now: u64, dx2: i32, dy2: i32, source2: Seq<char>, now2: u64)
    requires
        spec_accumulate(d, dx, dy, source, now).1 is Some,
    ensures
        spec_accumulate(spec_accumulate(d, dx, dy, source, now).0, dx2, dy2, source2, now2)
            == (spec_accumulate(d, dx, dy, source, now).0, None::<MouseEvent>),
{
}

/// While the cooldown after a swipe lasts, motion gives nothing.
pub proof fn lemma_cooldown_blocks(d: DetectorView, dx: i32, dy: i32, source: Seq<char>, now: u64)
    requires
        cooldown_active(d, now),
    ensures
        spec_accumulate(d, dx, dy, source, now).1 is None,
{
}

/// The four cones of `classify`, stated by the signs and sizes of the
/// displacement: nothing below the threshold; right when `dx` is positive
/// and `|dy|` is below it (`dy == -dx` included), or for no motion at all;
/// down when `dy` is positive and at least `|dx|` (`dx == dy` included);
/// up when `dy` is negative and `|dy|` is above `dx` (`dx == dy` included);
/// left otherwise, that is when `dx` is negative and `|dy|` is at most
/// `|dx|` (`dy == -dx` included).
pub proof fn lemma_classify_cones(dx: int, dy: int, threshold: u32)
    ensures
        classify(dx, dy, threshold) is None <==> dx * dx + dy * dy < threshold * threshold,
        classify(dx, dy, threshold) == Some(MouseEvent::GestureSwipeRight) ==> (0 < dx && -dx <= dy
            && dy < dx) || (dx == 0 && dy == 0),
        classify(dx, dy, threshold) == Some(MouseEvent::GestureSwipeDown) ==> 0 < dy && -dy < dx
            && dx <= dy,
        classify(dx, dy, threshold) == Some(MouseEvent::GestureSwipeUp) ==> dy < 0 && dy <= dx && dx
            < -dy,
        classify(dx, dy, threshold) == Some(MouseEvent::GestureSwipeLeft) ==> dx < 0 && dx < dy && dy
            <= -dx,
        classify(dx, dy, threshold) is Some ==> classify(dx, dy, threshold) == Some(
            MouseEvent::GestureSwipeRight,
        ) || classify(dx, dy, threshold) == Some(MouseEvent::GestureSwipeDown) || classify(
            dx,
            dy,
            threshold,
        ) == Some(MouseEvent::GestureSwipeUp) || classify(dx, dy, threshold) == Some(
            MouseEvent::GestureSwipeLeft,
        ),
{
}

/// One motion report during a press that is being tracked (enabled,
/// button down, no swipe yet, no cooldown, motion locked to this source,
/// last motion within the timeout), with the sum of the motion so far
/// `x, y`:
/// - below the threshold nothing fires, the motion is kept and no
///   direction is pending;
/// - over the threshold in direction `dir` with no confirmation time, the
///   swipe fires at once;
/// - with a confirmation time, the swipe fires once `dir` has been the
///   pending direction for at least that long; before then nothing fires
///   and the pending direction and its start stay; a new direction
///   becomes pending from now and nothing fires.
/// A fired swipe marks the press as triggered.
pub proof fn lemma_accumulate_confirms_direction(
    d: DetectorView,
    dx: i32,
    dy: i32,
    source: Seq<char>,
    now: u64,
    dir: MouseEvent,
    since: u64,
)
    requires
        d.enabled,
        d.active,
        !d.triggered,
        d.tracking,
        d.cooldown_until matches Some(t) ==> t <= now,
        d.input_source == Some(source),
        d.last_move_at matches Some(lm) ==> lm <= now && now - lm <= d.config.timeout_ms,
        -DELTA_LIMIT <= d.delta_x + dx <= DELTA_LIMIT,
        -DELTA_LIMIT <= d.delta_y + dy <= DELTA_LIMIT,
    ensures
        ({
            let r = spec_accumulate(d, dx, dy, source, now);
            let x = d.delta_x + dx;
            let y = d.delta_y + dy;
            &&& classify(x, y, d.config.threshold) is None ==> {
                &&& r.1 is None
                &&& !r.0.triggered
                &&& r.0.candidate_dir is None
                &&& r.0.delta_x == x && r.0.delta_y == y
            }
            &&& (classify(x, y, d.config.threshold) == Some(dir) && d.config.confirm_ms == 0) ==> {
                &&& r.1 == Some(dir)
                &&& r.0.triggered
            }
            &&& (classify(x, y, d.config.threshold) == Some(dir) && d.config.confirm_ms > 0
                && d.candidate_dir == Some(dir) && d.candidate_since == Some(since) && since
                <= now && now - since >= d.config.confirm_ms) ==> {
                &&& r.1 == Some(dir)
                &&& r.0.triggered
            }
            &&& (classify(x, y, d.config.threshold) == Some(dir) && d.config.confirm_ms > 0
                && d.candidate_dir == Some(dir) && d.candidate_since == Some(since) && since
                <= now && now - since < d.config.confirm_ms) ==> {
                &&& r.1 is None
                &&& !r.0.triggered
                &&& r.0.candidate_dir == Some(dir)
                &&& r.0.candidate_since == d.candidate_since
            }
            &&& (classify(x, y, d.config.threshold) == Some(dir) && d.config.confirm_ms > 0
                && d.candidate_dir != Some(dir)) ==> {
                &&& r.1 is None
                &&& !r.0.triggered
                &&& r.0.candidate_dir == Some(dir)
                &&& r.0.candidate_since == Some(now)
            }
        }),
{
    reveal_strlit("hid_rawxy");
    reveal_strlit("event_tap");
    reveal_strlit("evdev");
    assert("hid_rawxy"@ != "event_tap"@) by {
        assert("hid_rawxy"@[0] != "event_tap"@[0]);
    }
    assert("hid_rawxy"@ != "evdev"@) by {
        assert("hid_rawxy"@.len() != "evdev"@.len());
    }
}

/// Source locking and the idle timeout, for a press being tracked
/// (enabled, button down, no swipe yet, no cooldown):
/// - motion from another source than the one the press is locked to is
///   ignored, unless it is raw HID motion replacing a lower-fidelity
///   source (an event tap or evdev), which restarts the accumulation from
///   this report and locks the press to raw HID motion;
/// - after an idle gap longer than the timeout, the accumulation restarts
///   from this report, so motion below the threshold is kept as the whole
///   sum.
pub proof fn lemma_accumulate_lock_and_timeout(
    d: DetectorView,
    dx: i32,
    dy: i32,
    source: Seq<char>,
    now: u64,
    locked: Seq<char>,
)
    requires
        d.enabled,
        d.active,
        !d.triggered,
        d.tracking,
        d.cooldown_until matches Some(t) ==> t <= now,
    ensures
        (d.input_source == Some(locked) && locked != source && source != "hid_rawxy"@ && (
        d.last_move_at matches Some(lm) ==> lm <= now && now - lm <= d.config.timeout_ms)) ==> {
            &&& spec_accumulate(d, dx, dy, source, now).1 is None
            &&& spec_accumulate(d, dx, dy, source, now).0.delta_x == d.delta_x
            &&& spec_accumulate(d, dx, dy, source, now).0.delta_y == d.delta_y
            &&& spec_accumulate(d, dx, dy, source, now).0.input_source == Some(locked)
        },
        (source == "hid_rawxy"@ && (d.input_source == Some("evdev"@) || d.input_source == Some(
            "event_tap"@,
        )) && classify(dx as int, dy as int, d.config.threshold) is None) ==> {
            &&& spec_accumulate(d, dx, dy, source, now).1 is None
            &&& spec_accumulate(d, dx, dy, source, now).0.delta_x == dx
            &&& spec_accumulate(d, dx, dy, source, now).0.delta_y == dy
            &&& spec_accumulate(d, dx, dy, source, now).0.input_source == Some(source)
        },
        (d.last_move_at matches Some(lm) && lm <= now && now - lm > d.config.timeout_ms && classify(
            dx as int,
            dy as int,
            d.config.threshold,
        ) is None) ==> {
            &&& spec_accumulate(d, dx, dy, source, now).1 is None
            &&& spec_accumulate(d, dx, dy, source, now).0.delta_x == dx
            &&& spec_accumulate(d, dx, dy, source, now).0.delta_y == dy
        },
{
}

// ---------------------------------------------------------------------------
// Raw event decisions
// ---------------------------------------------------------------------------

/// Relative pointer motion.
#[derive(Clone, Copy, PartialEq, Eq, Structural, Debug)]
pub struct Motion {
    pub dx: i32,
    pub dy: i32,
}

/// What to do with one raw input event.
#[derive(Clone, Copy, PartialEq, Eq, Structural, Debug)]
pub struct HookDecision {
    /// The event to report to the registered callbacks, if any.
    pub event: Option<MouseEvent>,
    /// Magnitude of the scroll that produced `event` (0 if none).
    pub scroll_delta: u32,
    /// Relative motion to feed to the gesture detector instead of moving
    /// the pointer.
    pub gesture_motion: Option<Motion>,
    /// Pass the original event on to the system.
    pub forward: bool,
}

pub open spec fn is_blocked(blocked: Seq<MouseEventType>, t: MouseEventType) -> bool {
    blocked.contains(t)
}

fn blocked_contains(blocked: &[MouseEventType], t: MouseEventType) -> (r: bool)
    ensures
        r == blocked@.contains(t),
{
    let mut i: usize = 0;
    while i < blocked.len()
        invariant
            i <= blocked.len(),
            forall|j: int| 0 <= j < i ==> blocked@[j] != t,
        decreases blocked.len() - i,
    {
        if blocked[i] == t {
            return true;
        }
        i += 1;
    }
    false
}

pub const EV_SYN: u16 = 0x00;
pub const EV_KEY: u16 = 0x01;
pub const EV_REL: u16 = 0x02;
pub const BTN_MIDDLE: u16 = 0x112;
pub const BTN_SIDE: u16 = 0x113;
pub const BTN_EXTRA: u16 = 0x114;
pub const REL_X: u16 = 0x00;
pub const REL_Y: u16 = 0x01;
pub const REL_HWHEEL: u16 = 0x06;
pub const REL_WHEEL: u16 = 0x08;
pub const REL_WHEEL_HI_RES: u16 = 0x0B;
pub const REL_HWHEEL_HI_RES: u16 = 0x0C;

pub open spec fn forward_only() -> HookDecision {
    HookDecision { event: None, scroll_delta: 0, gesture_motion: None, forward: true }
}

pub open spec fn report(e: MouseEvent, delta: u32, blocked: Seq<MouseEventType>) -> HookDecision {
    HookDecision { event: Some(e), scroll_delta: delta, gesture_motion: None, forward: !is_blocked(blocked, event_type_of(e)) }
}

/// The press / release events of a button key with value 1 (press) or 0
/// (release); other values (auto-repeat) report nothing.
pub open spec fn key_event(code: u16, value: i32) -> Option<MouseEvent> {
    if code == BTN_SIDE {
        if value == 1 { Some(MouseEvent::XButton1Down) } else if value == 0 { Some(MouseEvent::XButton1Up) } else { None }
    } else if code == BTN_EXTRA {
        if value == 1 { Some(MouseEvent::XButton2Down) } else if value == 0 { Some(MouseEvent::XButton2Up) } else { None }
    } else if code == BTN_MIDDLE {
        if value == 1 { Some(MouseEvent::MiddleDown) } else if value == 0 { Some(MouseEvent::MiddleUp) } else { None }
    } else {
        None
    }
}

pub open spec fn abs_i32(v: i32) -> u32 {
    if v < 0 { (-(v as int)) as u32 } else { v as u32 }
}

pub open spec fn spec_evdev_decision(ev_type: u16, code: u16, value: i32, blocked: Seq<MouseEventType>, gesture_enabled: bool) -> HookDecision {
    if ev_type == EV_KEY {
        match key_event(code, value) {
            Some(e) => report(e, 0, blocked),
            None => forward_only(),
        }
    } else if ev_type == EV_REL {
        if code == REL_X || code == REL_Y {
            if gesture_enabled {
                HookDecision {
                    event: None,
                    scroll_delta: 0,
                    gesture_motion: Some(if code == REL_X { Motion { dx: value, dy: 0 } } else { Motion { dx: 0, dy: value } }),
                    forward: false,
                }
            } else {
                forward_only()
            }
        } else if code == REL_HWHEEL && value > 0 {
            report(MouseEvent::HScrollRight, abs_i32(value), blocked)
        } else if code == REL_HWHEEL && value < 0 {
            report(MouseEvent::HScrollLeft, abs_i32(value), blocked)
        } else {
            forward_only()
        }
    } else {
        forward_only()
    }
}

fn abs_value(v: i32) -> (r: u32)
    ensures
        r == abs_i32(v),
{
    if v < 0 {
        if v == i32::MIN { 0x8000_0000u32 } else { (-v) as u32 }
    } else {
        v as u32
    }
}

fn report_exec(e: MouseEvent, delta: u32, blocked: &[MouseEventType]) -> (r: HookDecision)
    ensures
        r == report(e, delta, blocked@),
{
    let t = MouseEventType::from(e);
    HookDecision { event: Some(e), scroll_delta: delta, gesture_motion: None, forward: !blocked_contains(blocked, t) }
}

/// Decision for one evdev input event from the grabbed mouse: side, extra
/// and middle buttons report their press / release and are swallowed when
/// blocked; horizontal wheel detents report a scroll; pointer motion goes
/// to the gesture detector while gestures are enabled; everything else is
/// passed on.
pub fn evdev_decision(ev_type: u16, code: u16, value: i32, blocked: &[MouseEventType], gesture_enabled: bool) -> (r: HookDecision)
    ensures
        r == spec_evdev_decision(ev_type, code, value, blocked@, gesture_enabled),
{
    let pass = HookDecision { event: None, scroll_delta: 0, gesture_motion: None, forward: true };
    if ev_type == EV_KEY {
        let e = if code == BTN_SIDE {
            if value == 1 { Some(MouseEvent::XButton1Down) } else if value == 0 { Some(MouseEvent::XButton1Up) } else { None }
        } else if code == BTN_EXTRA {
            if value == 1 { Some(MouseEvent::XButton2Down) } else if value == 0 { Some(MouseEvent::XButton2Up) } else { None }
        } else if code == BTN_MIDDLE {
            if value == 1 { Some(MouseEvent::MiddleDown) } else if value == 0 { Some(MouseEvent::MiddleUp) } else { None }
        } else {
            None
        };
        match e {
            Some(e) => report_exec(e, 0, blocked),
            None => pass,
        }
    } else if ev_type == EV_REL {
        if code == REL_X || code == REL_Y {
            if gesture_enabled {
                HookDecision {
                    event: None,
                    scroll_delta: 0,
                    gesture_motion: Some(if code == REL_X { Motion { dx: value, dy: 0 } } else { Motion { dx: 0, dy: value } }),
                    forward: false,
                }
            } else {
                pass
            }
        } else if code == REL_HWHEEL && value > 0 {
            report_exec(MouseEvent::HScrollRight, abs_value(value), blocked)
        } else if code == REL_HWHEEL && value < 0 {
            report_exec(MouseEvent::HScrollLeft, abs_value(value), blocked)
        } else {
            pass
        }
    } else {
        pass
    }
}

pub const WM_MBUTTONDOWN: u32 = 0x0207;
pub const WM_MBUTTONUP: u32 = 0x0208;
pub const WM_XBUTTONDOWN: u32 = 0x020B;
pub const WM_XBUTTONUP: u32 = 0x020C;
pub const WM_MOUSEHWHEEL: u32 = 0x020E;
pub const XBUTTON1: u16 = 0x0001;
pub const XBUTTON2: u16 = 0x0002;
pub const LLMHF_INJECTED: u32 = 0x0000_0001;

/// High 16 bits of a 32-bit value, as a signed number.
pub open spec fn spec_hiword(dword: u32) -> i16 {
    let h = dword / 0x1_0000;
    (if h >= 0x8000 { h - 0x1_0000 } else { h as int }) as i16
}

/// High 16 bits of a 32-bit value, as a signed number.
pub fn hiword(dword: u32) -> (r: i16)
    ensures
        r == spec_hiword(dword),
{
    let h = dword / 0x1_0000;
    if h >= 0x8000 {
        (h as i32 - 0x1_0000) as i16
    } else {
        h as i16
    }
}

pub open spec fn spec_windows_decision(msg: u32, mouse_data: u32, flags: u32, blocked: Seq<MouseEventType>) -> HookDecision {
    let hw = spec_hiword(mouse_data);
    let xbtn = (if hw < 0 { hw + 0x1_0000 } else { hw as int }) as u16;
    if flags % 2 == 1 {
        forward_only()
    } else if msg == WM_XBUTTONDOWN && xbtn == XBUTTON1 {
        report(MouseEvent::XButton1Down, 0, blocked)
    } else if msg == WM_XBUTTONDOWN && xbtn == XBUTTON2 {
        report(MouseEvent::XButton2Down, 0, blocked)
    } else if msg == WM_XBUTTONUP && xbtn == XBUTTON1 {
        report(MouseEvent::XButton1Up, 0, blocked)
    } else if msg == WM_XBUTTONUP && xbtn == XBUTTON2 {
        report(MouseEvent::XButton2Up, 0, blocked)
    } else if msg == WM_MBUTTONDOWN {
        report(MouseEvent::MiddleDown, 0, blocked)
    } else if msg == WM_MBUTTONUP {
        report(MouseEvent::MiddleUp, 0, blocked)
    } else if msg == WM_MOUSEHWHEEL && hw > 0 {
        report(MouseEvent::HScrollLeft, hw as u32, blocked)
    } else if msg == WM_MOUSEHWHEEL && hw < 0 {
        report(MouseEvent::HScrollRight, (-(hw as int)) as u32, blocked)
    } else {
        forward_only()
    }
}

/// Decision for one low-level Windows mouse message.  Injected events
/// (such as the scrolls this program sends itself) always pass.
pub fn windows_decision(msg: u32, mouse_data: u32, flags: u32, blocked: &[MouseEventType]) -> (r: HookDecision)
    ensures
        r == spec_windows_decision(msg, mouse_data, flags, blocked@),
{
    let pass = HookDecision { event: None, scroll_delta: 0, gesture_motion: None, forward: true };
    if flags % 2 == 1 {
        return pass;
    }
    let hw = hiword(mouse_data);
    let xbtn: u16 = if hw < 0 { (hw as i32 + 0x1_0000) as u16 } else { hw as u16 };
    if msg == WM_XBUTTONDOWN && xbtn == XBUTTON1 {
        report_exec(MouseEvent::XButton1Down, 0, blocked)
    } else if msg == WM_XBUTTONDOWN && xbtn == XBUTTON2 {
        report_exec(MouseEvent::XButton2Down, 0, blocked)
    } else if msg == WM_XBUTTONUP && xbtn == XBUTTON1 {
        report_exec(MouseEvent::XButton1Up, 0, blocked)
    } else if msg == WM_XBUTTONUP && xbtn == XBUTTON2 {
        report_exec(MouseEvent::XButton2Up, 0, blocked)
    } else if msg == WM_MBUTTONDOWN {
        report_exec(MouseEvent::MiddleDown, 0, blocked)
    } else if msg == WM_MBUTTONUP {
        report_exec(MouseEvent::MiddleUp, 0, blocked)
    } else if msg == WM_MOUSEHWHEEL && hw > 0 {
        report_exec(MouseEvent::HScrollLeft, hw as u32, blocked)
    } else if msg == WM_MOUSEHWHEEL && hw < 0 {
        report_exec(MouseEvent::HScrollRight, (-(hw as i32)) as u32, blocked)
    } else {
        pass
    }
}

/// The hook code of a message the hook is to act on; with any other code
/// the message is only handed on.
pub const HC_ACTION: i32 = 0;

pub open spec fn spec_ll_mouse_decision(
    n_code: i32,
    msg: u32,
    mouse_data: u32,
    flags: u32,
    blocked: Seq<MouseEventType>,
) -> HookDecision {
    if n_code != HC_ACTION {
        forward_only()
    } else {
        spec_windows_decision(msg, mouse_data, flags, blocked)
    }
}

/// Decision of the low-level Windows mouse hook for one call: a call
/// whose hook code is not `HC_ACTION` is forwarded untouched, any other
/// is decided by `windows_decision`.
pub fn ll_mouse_decision(n_code: i32, msg: u32, mouse_data: u32, flags: u32, blocked: &[MouseEventType]) -> (r: HookDecision)
    ensures
        r == spec_ll_mouse_decision(n_code, msg, mouse_data, flags, blocked@),
{
    if n_code != HC_ACTION {
        return HookDecision { event: None, scroll_delta: 0, gesture_motion: None, forward: true };
    }
    windows_decision(msg, mouse_data, flags, blocked)
}

/// What the evdev hook does with the horizontal wheel, pointer motion and
/// the side and middle buttons: a wheel tilt to the right (positive value)
/// reports a right scroll and one to the left a left scroll, each of the
/// tilt's size, and no tilt reports nothing; motion goes, axis by axis, to
/// the gesture detector instead of the pointer while gestures are enabled
/// and passes untouched otherwise; the side button is the first extra
/// button, the extra button the second, each press (value 1) and release
/// (value 0) reporting its own event; and a reported event is swallowed
/// exactly when its type is blocked.
pub proof fn lemma_evdev_decision_meaning(value: i32, blocked: Seq<MouseEventType>, gesture_enabled: bool)
    ensures
        value > 0 ==> spec_evdev_decision(EV_REL, REL_HWHEEL, value, blocked, gesture_enabled).event
            == Some(MouseEvent::HScrollRight) && spec_evdev_decision(
            EV_REL,
            REL_HWHEEL,
            value,
            blocked,
            gesture_enabled,
        ).scroll_delta == value,
        value < 0 ==> spec_evdev_decision(EV_REL, REL_HWHEEL, value, blocked, gesture_enabled).event
            == Some(MouseEvent::HScrollLeft) && spec_evdev_decision(
            EV_REL,
            REL_HWHEEL,
            value,
            blocked,
            gesture_enabled,
        ).scroll_delta == -value,
        value == 0 ==> spec_evdev_decision(EV_REL, REL_HWHEEL, value, blocked, gesture_enabled)
            == forward_only(),
        gesture_enabled ==> spec_evdev_decision(EV_REL, REL_X, value, blocked, gesture_enabled).gesture_motion
            == Some(Motion { dx: value, dy: 0 }) && !spec_evdev_decision(
            EV_REL,
            REL_X,
            value,
            blocked,
            gesture_enabled,
        ).forward,
        gesture_enabled ==> spec_evdev_decision(EV_REL, REL_Y, value, blocked, gesture_enabled).gesture_motion
            == Some(Motion { dx: 0, dy: value }) && !spec_evdev_decision(
            EV_REL,
            REL_Y,
            value,
            blocked,
            gesture_enabled,
        ).forward,
        !gesture_enabled ==> spec_evdev_decision(EV_REL, REL_X, value, blocked, gesture_enabled)
            == forward_only() && spec_evdev_decision(EV_REL, REL_Y, value, blocked, gesture_enabled)
            == forward_only(),
        spec_evdev_decision(EV_KEY, BTN_SIDE, 1, blocked, gesture_enabled).event == Some(
            MouseEvent::XButton1Down,
        ),
        spec_evdev_decision(EV_KEY, BTN_SIDE, 0, blocked, gesture_enabled).event == Some(
            MouseEvent::XButton1Up,
        ),
        spec_evdev_decision(EV_KEY, BTN_EXTRA, 1, blocked, gesture_enabled).event == Some(
            MouseEvent::XButton2Down,
        ),
        spec_evdev_decision(EV_KEY, BTN_EXTRA, 0, blocked, gesture_enabled).event == Some(
            MouseEvent::XButton2Up,
        ),
        spec_evdev_decision(EV_KEY, BTN_MIDDLE, 1, blocked, gesture_enabled).event == Some(
            MouseEvent::MiddleDown,
        ),
        spec_evdev_decision(EV_KEY, BTN_MIDDLE, 0, blocked, gesture_enabled).event == Some(
            MouseEvent::MiddleUp,
        ),
        forall|ev_type: u16, code: u16, v: i32|
            #[trigger] spec_evdev_decision(ev_type, code, v, blocked, gesture_enabled).event is Some
                ==> spec_evdev_decision(ev_type, code, v, blocked, gesture_enabled).forward
                == !blocked.contains(
                event_type_of(spec_evdev_decision(ev_type, code, v, blocked, gesture_enabled).event.unwrap()),
            ) && spec_evdev_decision(
                ev_type,
                code,
                v,
                blocked,
                gesture_enabled,
            ).gesture_motion is None,
{
}

/// What the Windows hook does with a message that was not injected: the
/// horizontal wheel reports a left scroll for a positive wheel amount
/// (the signed high word of `mouse_data`) and a right scroll for a
/// negative one, each of the amount's size; the extra-button messages
/// report the button named by the high word, pressed or released; and a
/// reported event is swallowed exactly when its type is blocked.
pub proof fn lemma_windows_decision_meaning(mouse_data: u32, flags: u32, blocked: Seq<MouseEventType>)
    requires
        flags % 2 == 0,
    ensures
        ({
            let h = mouse_data / 0x1_0000;
            let amount: int = if h >= 0x8000 { h - 0x1_0000 } else { h as int };
            let wheel = spec_windows_decision(WM_MOUSEHWHEEL, mouse_data, flags, blocked);
            &&& amount > 0 ==> wheel.event == Some(MouseEvent::HScrollLeft) && wheel.scroll_delta
                == amount
            &&& amount < 0 ==> wheel.event == Some(MouseEvent::HScrollRight) && wheel.scroll_delta
                == -amount
            &&& amount == 0 ==> wheel == forward_only()
            &&& h == 1 ==> spec_windows_decision(WM_XBUTTONDOWN, mouse_data, flags, blocked).event
                == Some(MouseEvent::XButton1Down) && spec_windows_decision(
                WM_XBUTTONUP,
                mouse_data,
                flags,
                blocked,
            ).event == Some(MouseEvent::XButton1Up)
            &&& h == 2 ==> spec_windows_decision(WM_XBUTTONDOWN, mouse_data, flags, blocked).event
                == Some(MouseEvent::XButton2Down) && spec_windows_decision(
                WM_XBUTTONUP,
                mouse_data,
                flags,
                blocked,
            ).event == Some(MouseEvent::XButton2Up)
        }),
        forall|msg: u32|
            #[trigger] spec_windows_decision(msg, mouse_data, flags, blocked).event is Some
                ==> spec_windows_decision(msg, mouse_data, flags, blocked).forward == !blocked.contains(
                event_type_of(spec_windows_decision(msg, mouse_data, flags, blocked).event.unwrap()),
            ),
        forall|msg: u32, data: u32|
            #[trigger] spec_windows_decision(msg, data, flags | LLMHF_INJECTED, blocked)
                == forward_only(),
{
    assert forall|msg: u32, data: u32|
        #[trigger] spec_windows_decision(msg, data, flags | LLMHF_INJECTED, blocked)
            == forward_only() by {
        assert((flags | 1u32) % 2 == 1) by (bit_vector);
    }
}

// Quartz event types and "other" mouse button numbers.
pub const CG_MOUSE_MOVED: u32 = 5;
pub const CG_SCROLL_WHEEL: u32 = 22;
pub const CG_OTHER_MOUSE_DOWN: u32 = 25;
pub const CG_OTHER_MOUSE_UP: u32 = 26;
pub const CG_OTHER_MOUSE_DRAGGED: u32 = 27;
pub const CG_BUTTON_MIDDLE: i64 = 2;
pub const CG_BUTTON_BACK: i64 = 3;
pub const CG_BUTTON_FORWARD: i64 = 4;

/// Magnitude of a fixed-point scroll delta, saturated to 32 bits.
pub open spec fn fixed_magnitude(v: i64) -> u32 {
    let a = if v < 0 { -(v as int) } else { v as int };
    if a > u32::MAX { u32::MAX } else { a as u32 }
}

/// The event of an "other" mouse button, pressed or released.
pub open spec fn other_button_event(button: i64, down: bool) -> Option<MouseEvent> {
    if button == CG_BUTTON_MIDDLE {
        Some(if down { MouseEvent::MiddleDown } else { MouseEvent::MiddleUp })
    } else if button == CG_BUTTON_BACK {
        Some(if down { MouseEvent::XButton1Down } else { MouseEvent::XButton1Up })
    } else if button == CG_BUTTON_FORWARD {
        Some(if down { MouseEvent::XButton2Down } else { MouseEvent::XButton2Up })
    } else {
        None
    }
}

pub open spec fn spec_macos_decision(
    event_type: u32,
    button: i64,
    dx: i32,
    dy: i32,
    h_fixed: i64,
    blocked: Seq<MouseEventType>,
    gesture_enabled: bool,
) -> HookDecision {
    if event_type == CG_MOUSE_MOVED || event_type == CG_OTHER_MOUSE_DRAGGED {
        if gesture_enabled {
            HookDecision { event: None, scroll_delta: 0, gesture_motion: Some(Motion { dx, dy }), forward: false }
        } else {
            forward_only()
        }
    } else if event_type == CG_OTHER_MOUSE_DOWN || event_type == CG_OTHER_MOUSE_UP {
        match other_button_event(button, event_type == CG_OTHER_MOUSE_DOWN) {
            Some(e) => report(e, 0, blocked),
            None => forward_only(),
        }
    } else if event_type == CG_SCROLL_WHEEL && h_fixed > 0 {
        report(MouseEvent::HScrollRight, fixed_magnitude(h_fixed), blocked)
    } else if event_type == CG_SCROLL_WHEEL && h_fixed < 0 {
        report(MouseEvent::HScrollLeft, fixed_magnitude(h_fixed), blocked)
    } else {
        forward_only()
    }
}

/// What the macOS event tap does: the horizontal scroll axis reports a
/// right scroll when positive and a left one when negative, of its size
/// (saturated to 32 bits); "other" buttons 2, 3 and 4 are the middle, the
/// first and the second extra button, pressed or released with the event;
/// pointer motion and drags go to the gesture detector while gestures are
/// enabled; and a reported event is swallowed exactly when its type is
/// blocked.
pub proof fn lemma_macos_decision_meaning(
    button: i64,
    dx: i32,
    dy: i32,
    h_fixed: i64,
    blocked: Seq<MouseEventType>,
    gesture_enabled: bool,
)
    ensures
        ({
            let sc = spec_macos_decision(CG_SCROLL_WHEEL, button, dx, dy, h_fixed, blocked, gesture_enabled);
            let size: int = if h_fixed < 0 { -h_fixed } else { h_fixed as int };
            &&& h_fixed > 0 ==> sc.event == Some(MouseEvent::HScrollRight)
            &&& h_fixed < 0 ==> sc.event == Some(MouseEvent::HScrollLeft)
            &&& h_fixed != 0 ==> sc.scroll_delta == (if size > u32::MAX { u32::MAX as int } else { size })
            &&& h_fixed == 0 ==> sc == forward_only()
        }),
        spec_macos_decision(CG_OTHER_MOUSE_DOWN, CG_BUTTON_MIDDLE, dx, dy, h_fixed, blocked, gesture_enabled).event
            == Some(MouseEvent::MiddleDown),
        spec_macos_decision(CG_OTHER_MOUSE_UP, CG_BUTTON_MIDDLE, dx, dy, h_fixed, blocked, gesture_enabled).event
            == Some(MouseEvent::MiddleUp),
        spec_macos_decision(CG_OTHER_MOUSE_DOWN, CG_BUTTON_BACK, dx, dy, h_fixed, blocked, gesture_enabled).event
            == Some(MouseEvent::XButton1Down),
        spec_macos_decision(CG_OTHER_MOUSE_UP, CG_BUTTON_BACK, dx, dy, h_fixed, blocked, gesture_enabled).event
            == Some(MouseEvent::XButton1Up),
        spec_macos_decision(CG_OTHER_MOUSE_DOWN, CG_BUTTON_FORWARD, dx, dy, h_fixed, blocked, gesture_enabled).event
            == Some(MouseEvent::XButton2Down),
        spec_macos_decision(CG_OTHER_MOUSE_UP, CG_BUTTON_FORWARD, dx, dy, h_fixed, blocked, gesture_enabled).event
            == Some(MouseEvent::XButton2Up),
        gesture_enabled ==> spec_macos_decision(CG_MOUSE_MOVED, button, dx, dy, h_fixed, blocked, gesture_enabled)
            == (HookDecision { event: None, scroll_delta: 0, gesture_motion: Some(Motion { dx, dy }), forward: false }),
        forall|event_type: u32|
            #[trigger] spec_macos_decision(event_type, button, dx, dy, h_fixed, blocked, gesture_enabled).event is Some
                ==> spec_macos_decision(event_type, button, dx, dy, h_fixed, blocked, gesture_enabled).forward
                == !blocked.contains(
                event_type_of(spec_macos_decision(event_type, button, dx, dy, h_fixed, blocked, gesture_enabled).event.unwrap()),
            ),
{
}

/// Decision for one Quartz event-tap event: "other" buttons 2, 3 and 4
/// report middle, back and forward and are swallowed when blocked; the
/// horizontal axis of a scroll (`h_fixed`, 16.16 fixed point) reports a
/// scroll whose magnitude is kept in that unit; pointer motion goes to the
/// gesture detector while gestures are enabled; the rest passes.
pub fn macos_decision(
    event_type: u32,
    button: i64,
    dx: i32,
    dy: i32,
    h_fixed: i64,
    blocked: &[MouseEventType],
    gesture_enabled: bool,
) -> (r: HookDecision)
    ensures
        r == spec_macos_decision(event_type, button, dx, dy, h_fixed, blocked@, gesture_enabled),
{
    let pass = HookDecision { event: None, scroll_delta: 0, gesture_motion: None, forward: true };
    if event_type == CG_MOUSE_MOVED || event_type == CG_OTHER_MOUSE_DRAGGED {
        if gesture_enabled {
            HookDecision { event: None, scroll_delta: 0, gesture_motion: Some(Motion { dx, dy }), forward: false }
        } else {
            pass
        }
    } else if event_type == CG_OTHER_MOUSE_DOWN || event_type == CG_OTHER_MOUSE_UP {
        let down = event_type == CG_OTHER_MOUSE_DOWN;
        let e = if button == CG_BUTTON_MIDDLE {
            Some(if down { MouseEvent::MiddleDown } else { MouseEvent::MiddleUp })
        } else if button == CG_BUTTON_BACK {
            Some(if down { MouseEvent::XButton1Down } else { MouseEvent::XButton1Up })
        } else if button == CG_BUTTON_FORWARD {
            Some(if down { MouseEvent::XButton2Down } else { MouseEvent::XButton2Up })
        } else {
            None
        };
        match e {
            Some(e) => report_exec(e, 0, blocked),
            None => pass,
        }
    } else if event_type == CG_SCROLL_WHEEL && h_fixed != 0 {
        let a: u64 = if h_fixed < 0 {
            if h_fixed == i64::MIN { 0x8000_0000_0000_0000u64 } else { (-h_fixed) as u64 }
        } else {
            h_fixed as u64
        };
        let mag: u32 = if a > 0xFFFF_FFFFu64 { 0xFFFF_FFFFu32 } else { a as u32 };
        if h_fixed > 0 {
            report_exec(MouseEvent::HScrollRight, mag, blocked)
        } else {
            report_exec(MouseEvent::HScrollLeft, mag, blocked)
        }
    } else {
        pass
    }
}

/// An event is swallowed only when its type is blocked.
pub proof fn lemma_only_blocked_events_swallowed(ev_type: u16, code: u16, value: i32, blocked: Seq<MouseEventType>)
    requires
        !spec_evdev_decision(ev_type, code, value, blocked, false).forward,
    ensures
        spec_evdev_decision(ev_type, code, value, blocked, false).event matches Some(e) && blocked.contains(event_type_of(e)),
{
}

/// On Windows too, a message is swallowed only when its event type is
/// blocked.
pub proof fn lemma_windows_swallows_only_blocked(msg: u32, mouse_data: u32, flags: u32, blocked: Seq<MouseEventType>)
    requires
        !spec_windows_decision(msg, mouse_data, flags, blocked).forward,
    ensures
        spec_windows_decision(msg, mouse_data, flags, blocked).event matches Some(e) && blocked.contains(event_type_of(e)),
{
}

/// With gestures off, a Quartz event is swallowed only when its event
/// type is blocked.
pub proof fn lemma_macos_swallows_only_blocked(
    event_type: u32,
    button: i64,
    dx: i32,
    dy: i32,
    h_fixed: i64,
    blocked: Seq<MouseEventType>,
)
    requires
        !spec_macos_decision(event_type, button, dx, dy, h_fixed, blocked, false).forward,
    ensures
        spec_macos_decision(event_type, button, dx, dy, h_fixed, blocked, false).event matches Some(e)
            && blocked.contains(event_type_of(e)),
{
}

// ---------------------------------------------------------------------------
// Hook bindings
// ---------------------------------------------------------------------------

/// The event types a hook swallows, each listed once.
pub struct BlockedEvents {
    types: Vec<MouseEventType>,
}

impl View for BlockedEvents {
    type V = Set<MouseEventType>;

    closed spec fn view(&self) -> Set<MouseEventType> {
        self.types@.to_set()
    }
}

impl BlockedEvents {
    pub closed spec fn wf(&self) -> bool {
        self.types@.no_duplicates()
    }

    /// Nothing blocked.
    pub fn new() -> (r: Self)
        ensures
            r.wf(),
            r@ == Set::<MouseEventType>::empty(),
    {
        let r = BlockedEvents { types: Vec::new() };
        assert(r.types@.to_set() =~= Set::<MouseEventType>::empty());
        r
    }

    /// Whether `t` is blocked.
    pub fn contains(&self, t: MouseEventType) -> (r: bool)
        ensures
            r == self@.contains(t),
    {
        let mut i: usize = 0;
        while i < self.types.len()
            invariant
                i <= self.types.len(),
                forall|j: int| 0 <= j < i ==> self.types@[j] != t,
            decreases self.types.len() - i,
        {
            if self.types[i] == t {
                assert(self.types@.to_set().contains(self.types@[i as int]));
                return true;
            }
            i += 1;
        }
        assert(!self.types@.contains(t));
        false
    }

    /// Blocks `t`.
    pub fn block(&mut self, t: MouseEventType)
        requires
            old(self).wf(),
        ensures
            final(self).wf(),
            final(self)@ == old(self)@.insert(t),
    {
        if !self.contains(t) {
            let ghost before = self.types@;
            self.types.push(t);
            assert(self.types@.to_set() =~= before.to_set().insert(t)) by {
                assert forall|x: MouseEventType| self.types@.contains(x) <==> (before.contains(x) || x == t) by {
                    if self.types@.contains(x) {
                        let k = choose|k: int| 0 <= k < self.types@.len() && self.types@[k] == x;
                        if k < before.len() {
                            assert(before[k] == x);
                        }
                    }
                    if before.contains(x) {
                        let k = choose|k: int| 0 <= k < before.len() && before[k] == x;
                        assert(self.types@[k] == x);
                    }
                    if x == t {
                        assert(self.types@[before.len() as int] == x);
                    }
                }
            }
        } else {
            assert(self.types@.to_set() =~= self.types@.to_set().insert(t));
        }
    }

    /// Stops blocking `t`.
    pub fn unblock(&mut self, t: MouseEventType)
        requires
            old(self).wf(),
        ensures
            final(self).wf(),
            final(self)@ == old(self)@.remove(t),
    {
        let ghost before = self.types@;
        let mut kept: Vec<MouseEventType> = Vec::new();
        let mut i: usize = 0;
        while i < self.types.len()
            invariant
                before == self.types@,
                before.no_duplicates(),
                i <= self.types.len(),
                kept@.no_duplicates(),
                forall|x: MouseEventType|
                    kept@.contains(x) <==> (before.take(i as int).contains(x) && x != t),
            decreases self.types.len() - i,
        {
            let cur = self.types[i];
            proof {
                assert(before.take(i + 1) =~= before.take(i as int).push(cur));
                if before.take(i as int).contains(cur) {
                    let j = before.take(i as int).index_of(cur);
                    assert(before[j] == before[i as int]);
                }
            }
            let ghost prev = kept@;
            if cur != t {
                kept.push(cur);
                proof {
                    assert(!prev.contains(cur));
                    assert forall|a: int, b: int| 0 <= a < b < kept@.len() implies kept@[a] != kept@[b] by {
                        if b == prev.len() {
                            assert(prev.contains(kept@[a]));
                        }
                    }
                    assert forall|x: MouseEventType|
                        kept@.contains(x) <==> (before.take(i + 1).contains(x) && x != t) by {
                        assert(kept@[prev.len() as int] == cur);
                        assert(before.take(i + 1)[i as int] == cur);
                        if kept@.contains(x) && x != cur {
                            let k = kept@.index_of(x);
                            assert(prev[k] == x);
                        }
                        if prev.contains(x) {
                            let k = prev.index_of(x);
                            assert(kept@[k] == x);
                        }
                        if before.take(i + 1).contains(x) && x != cur {
                            let k = before.take(i + 1).index_of(x);
                            assert(before.take(i as int)[k] == x);
                        }
                        if before.take(i as int).contains(x) {
                            let k = before.take(i as int).index_of(x);
                            assert(before.take(i + 1)[k] == x);
                        }
                    }
                }
            } else {
                proof {
                    assert forall|x: MouseEventType|
                        kept@.contains(x) <==> (before.take(i + 1).contains(x) && x != t) by {
                        if before.take(i + 1).contains(x) && x != cur {
                            let k = before.take(i + 1).index_of(x);
                            assert(before.take(i as int)[k] == x);
                        }
                        if before.take(i as int).contains(x) {
                            let k = before.take(i as int).index_of(x);
                            assert(before.take(i + 1)[k] == x);
                        }
                    }
                }
            }
            i += 1;
        }
        assert(before.take(before.len() as int) =~= before);
        self.types = kept;
        assert(self.types@.to_set() =~= before.to_set().remove(t));
    }

    /// Stops blocking everything.
    pub fn clear(&mut self)
        ensures
            final(self).wf(),
            final(self)@ == Set::<MouseEventType>::empty(),
    {
        self.types = Vec::new();
        assert(self.types@.to_set() =~= Set::<MouseEventType>::empty());
    }

    /// The blocked types, each once, for the hook's per-event decisions.
    pub fn as_slice(&self) -> (r: &[MouseEventType])
        ensures
            r@.to_set() == self@,
            forall|t: MouseEventType| is_blocked(r@, t) == self@.contains(t),
    {
        self.types.as_slice()
    }
}

/// The handlers registered for each event type, in registration order.
pub struct CallbackMap<H> {
    entries: Vec<(MouseEventType, H)>,
}

impl<H> View for CallbackMap<H> {
    type V = Seq<(MouseEventType, H)>;

    closed spec fn view(&self) -> Seq<(MouseEventType, H)> {
        self.entries@
    }
}

/// The positions of the handlers for `t`, in order.
pub open spec fn handler_positions<H>(s: Seq<(MouseEventType, H)>, t: MouseEventType) -> Seq<int>
    decreases s.len(),
{
    if s.len() == 0 {
        Seq::empty()
    } else if s.last().0 == t {
        handler_positions(s.drop_last(), t).push(s.len() - 1)
    } else {
        handler_positions(s.drop_last(), t)
    }
}

impl<H> CallbackMap<H> {
    /// No handlers.
    pub fn new() -> (r: Self)
        ensures
            r@ == Seq::<(MouseEventType, H)>::empty(),
    {
        CallbackMap { entries: Vec::new() }
    }

    /// Adds a handler for `t` after the existing ones.
    pub fn register(&mut self, t: MouseEventType, handler: H)
        ensures
            final(self)@ == old(self)@.push((t, handler)),
    {
        self.entries.push((t, handler));
    }

    /// The positions of the handlers an event of type `t` goes to, in
    /// registration order.
    pub fn dispatch(&self, t: MouseEventType) -> (r: Vec<usize>)
        ensures
            r@.map_values(|i: usize| i as int) == handler_positions(self@, t),
    {
        let mut out: Vec<usize> = Vec::new();
        let mut i: usize = 0;
        while i < self.entries.len()
            invariant
                i <= self.entries.len(),
                out@.map_values(|i: usize| i as int) == handler_positions(self.entries@.take(i as int), t),
            decreases self.entries.len() - i,
        {
            assert(self.entries@.take(i + 1).drop_last() =~= self.entries@.take(i as int));
            let ghost before = out@;
            if self.entries[i].0 == t {
                out.push(i);
            }
            assert(out@.map_values(|i: usize| i as int) =~= handler_positions(self.entries@.take(i + 1), t));
            i += 1;
        }
        assert(self.entries@.take(self.entries.len() as int) =~= self.entries@);
        out
    }

    /// The handler at a position given by `dispatch`.
    pub fn handler(&self, i: usize) -> (r: &H)
        requires
            i < self@.len(),
        ensures
            *r == self@[i as int].1,
    {
        &self.entries[i].1
    }

    /// Removes every handler.
    pub fn clear(&mut self)
        ensures
            final(self)@ == Seq::<(MouseEventType, H)>::empty(),
    {
        self.entries = Vec::new();
    }
}

/// Every position `dispatch` gives holds a handler for the event's type.
pub proof fn lemma_dispatch_positions_match<H>(s: Seq<(MouseEventType, H)>, t: MouseEventType)
    ensures
        forall|k: int|
            0 <= k < handler_positions(s, t).len() ==> 0 <= #[trigger] handler_positions(s, t)[k]
                < s.len() && s[handler_positions(s, t)[k]].0 == t,
    decreases s.len(),
{
    if s.len() > 0 {
        lemma_dispatch_positions_match(s.drop_last(), t);
    }
}

/// The handlers registered for `t`, in registration order.
pub open spec fn handlers_for<H>(s: Seq<(MouseEventType, H)>, t: MouseEventType) -> Seq<H>
    decreases s.len(),
{
    if s.len() == 0 {
        Seq::empty()
    } else if s.last().0 == t {
        handlers_for(s.drop_last(), t).push(s.last().1)
    } else {
        handlers_for(s.drop_last(), t)
    }
}

/// After the registrations `regs`, made in order on a new or cleared map
/// (whose view is then `regs`), an event of type `t` is handed to exactly
/// the handlers registered for `t`, in registration order, each once:
/// the positions `dispatch` gives, read through `handler`, are
/// `handlers_for(regs, t)`.  A handler registered for another type is
/// never reached, and after `clear` (an empty view) no handler is.
pub proof fn lemma_dispatch_after_registrations<H>(regs: Seq<(MouseEventType, H)>, t: MouseEventType)
    ensures
        handler_positions(regs, t).len() == handlers_for(regs, t).len(),
        forall|k: int|
            0 <= k < handler_positions(regs, t).len() ==> regs[#[trigger] handler_positions(regs, t)[k]].1
                == handlers_for(regs, t)[k],
        forall|k: int, j: int|
            0 <= k < j < handler_positions(regs, t).len() ==> #[trigger] handler_positions(regs, t)[k]
                < #[trigger] handler_positions(regs, t)[j],
        regs.len() == 0 ==> handler_positions(regs, t).len() == 0,
    decreases regs.len(),
{
    lemma_dispatch_positions_match(regs, t);
    if regs.len() > 0 {
        let init = regs.drop_last();
        lemma_dispatch_after_registrations(init, t);
        lemma_dispatch_positions_match(init, t);
        let p0 = handler_positions(init, t);
        assert forall|k: int| 0 <= k < p0.len() implies regs[#[trigger] p0[k]] == init[p0[k]] by {}
    }
}

// ---------------------------------------------------------------------------
// Choosing the mouse to grab
// ---------------------------------------------------------------------------

pub const LOGI_VENDOR: u16 = 0x046D;

/// What the hook reads of an input device when choosing the mouse.
#[derive(Clone, Copy, PartialEq, Eq, Structural, Debug)]
pub struct MouseCandidate {
    pub has_rel_x: bool,
    pub has_rel_y: bool,
    pub has_btn_left: bool,
    pub has_side_buttons: bool,
    pub vendor: u16,
}

/// A device is a mouse when it moves on both axes and has a left button.
pub open spec fn is_mouse(c: MouseCandidate) -> bool {
    c.has_rel_x && c.has_rel_y && c.has_btn_left
}

/// Preference among mice: Logitech before others, and within each, mice
/// with side buttons first (lower is better).
pub open spec fn mouse_rank(c: MouseCandidate) -> int {
    (if c.vendor == LOGI_VENDOR { 0int } else { 2int }) + (if c.has_side_buttons { 0int } else { 1int })
}

/// `i` is the mouse to grab: the first of the most preferred mice.
pub open spec fn is_best_mouse(s: Seq<MouseCandidate>, i: int) -> bool {
    &&& 0 <= i < s.len()
    &&& is_mouse(s[i])
    &&& forall|j: int| 0 <= j < s.len() && is_mouse(#[trigger] s[j]) ==> mouse_rank(s[i]) < mouse_rank(s[j])
        || (mouse_rank(s[i]) == mouse_rank(s[j]) && i <= j)
}

fn mouse_rank_exec(c: &MouseCandidate) -> (r: u8)
    ensures
        r as int == mouse_rank(*c),
{
    (if c.vendor == LOGI_VENDOR { 0u8 } else { 2u8 }) + (if c.has_side_buttons { 0u8 } else { 1u8 })
}

/// The device to grab among the input devices: `None` when none is a
/// mouse.
pub fn choose_mouse_device(candidates: &Vec<MouseCandidate>) -> (r: Option<usize>)
    ensures
        match r {
            Some(i) => is_best_mouse(candidates@, i as int),
            None => forall|j: int| 0 <= j < candidates@.len() ==> !is_mouse(#[trigger] candidates@[j]),
        },
{
    let mut best: Option<usize> = None;
    let mut i: usize = 0;
    while i < candidates.len()
        invariant
            i <= candidates.len(),
            match best {
                Some(b) => b < i && is_best_mouse(candidates@.take(i as int), b as int),
                None => forall|j: int| 0 <= j < i ==> !is_mouse(#[trigger] candidates@[j]),
            },
        decreases candidates.len() - i,
    {
        let c = &candidates[i];
        let ghost s = candidates@.take(i + 1);
        assert(candidates@.take(i as int) =~= s.take(i as int));
        if c.has_rel_x && c.has_rel_y && c.has_btn_left {
            match best {
                Some(b) => {
                    if mouse_rank_exec(c) < mouse_rank_exec(&candidates[b]) {
                        best = Some(i);
                        assert forall|j: int| 0 <= j < s.len() && is_mouse(#[trigger] s[j]) implies mouse_rank(s[i as int]) < mouse_rank(s[j])
                            || (mouse_rank(s[i as int]) == mouse_rank(s[j]) && i <= j) by {
                            if j < i {
                                assert(s[j] == candidates@.take(i as int)[j]);
                            }
                        }
                    } else {
                        assert forall|j: int| 0 <= j < s.len() && is_mouse(#[trigger] s[j]) implies mouse_rank(s[b as int]) < mouse_rank(s[j])
                            || (mouse_rank(s[b as int]) == mouse_rank(s[j]) && b <= j) by {
                            if j < i {
                                assert(s[j] == candidates@.take(i as int)[j]);
                            }
                        }
                    }
                },
                None => {
                    best = Some(i);
                },
            }
        } else {
            match best {
                Some(b) => {
                    assert forall|j: int| 0 <= j < s.len() && is_mouse(#[trigger] s[j]) implies mouse_rank(s[b as int]) < mouse_rank(s[j])
                        || (mouse_rank(s[b as int]) == mouse_rank(s[j]) && b <= j) by {
                        if j < i {
                            assert(s[j] == candidates@.take(i as int)[j]);
                        }
                    }
                },
                None => {},
            }
        }
        i += 1;
    }
    assert(candidates@.take(candidates.len() as int) =~= candidates@);
    best
}

} // verus!
