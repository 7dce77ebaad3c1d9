//! Foreground-application tracking: when a poll reports a new foreground
//! application, which command-line tools find it on Linux, how their
//! output is read, and how an AppleScript answer is read on macOS.  Running
//! the tools and polling happen outside the library.

use vstd::prelude::*;
use crate::text::{
    chars_of, chars_contain, decimal, extend_str, has_infix, push_decimal_padded, str_eq,
    str_lower, str_upper, string_of, to_lowercase, to_uppercase, trim, trim_chars,
};

verus! {

/// The last foreground application reported to the engine.
pub struct ForegroundTracker {
    pub last_exe: Option<String>,
}

pub open spec fn opt_view(o: Option<String>) -> Option<Seq<char>> {
    match o {
        Some(s) => Some(s@),
        None => None,
    }
}

impl ForegroundTracker {
    /// Nothing reported yet.
    pub fn new() -> (r: Self)
        ensures
            r.last_exe is None,
    {
        ForegroundTracker { last_exe: None }
    }

    /// One poll's answer.  A known application that differs from the last
    /// one reported is reported (returned) and remembered; an unknown one
    /// or the same one again reports nothing.
    pub fn observe(&mut self, exe: Option<&str>) -> (changed: Option<String>)
        ensures
            (opt_view(changed), opt_view(final(self).last_exe)) == spec_observe(
                opt_view(old(self).last_exe),
                match exe {
                    Some(e) => Some(e@),
                    None => None,
                },
            ),
    {
        match exe {
            Some(e) => {
                let same = match &self.last_exe {
                    Some(l) => str_eq(l.as_str(), e),
                    None => false,
                };
                if same {
                    None
                } else {
                    self.last_exe = Some(e.to_owned());
                    Some(e.to_owned())
                }
            },
            None => None,
        }
    }
}

/// The foreground poller's switch and interval.  The program runs the
/// polling thread; this decides when one is to be started.
pub struct AppDetector {
    pub interval_ms: u64,
    pub running: bool,
}

impl AppDetector {
    /// A stopped detector that polls every `interval_ms` once started.
    pub fn new(interval_ms: u64) -> (r: Self)
        ensures
            r.interval_ms == interval_ms,
            !r.running,
    {
        AppDetector { interval_ms, running: false }
    }

    /// Starts polling; returns whether a poller is to be started now.  A
    /// start while one runs starts no second poller.
    pub fn start(&mut self) -> (spawn: bool)
        ensures
            spawn == !old(self).running,
            final(self).running,
            final(self).interval_ms == old(self).interval_ms,
    {
        if self.running {
            return false;
        }
        self.running = true;
        true
    }

    /// Stops polling; a later start starts a poller again.
    pub fn stop(&mut self)
        ensures
            !final(self).running,
            final(self).interval_ms == old(self).interval_ms,
    {
        self.running = false;
    }
}

/// What a poll reports and what is remembered afterwards.
pub open spec fn spec_observe(last: Option<Seq<char>>, exe: Option<Seq<char>>) -> (
    Option<Seq<char>>,
    Option<Seq<char>>,
) {
    match exe {
        Some(e) => if last == Some(e) {
            (None, last)
        } else {
            (Some(e), Some(e))
        },
        None => (None, last),
    }
}

/// The same application polled twice in a row is reported at most once.
pub proof fn lemma_repeat_reports_nothing(last: Option<Seq<char>>, e: Seq<char>)
    ensures
        spec_observe(spec_observe(last, Some(e)).1, Some(e)).0 is None,
{
}

/// What a run of polls reports, in order, and what is remembered after
/// it: each poll's answer goes through `spec_observe` in turn.
pub open spec fn poll_run(last: Option<Seq<char>>, samples: Seq<Option<Seq<char>>>) -> (
    Seq<Seq<char>>,
    Option<Seq<char>>,
)
    decreases samples.len(),
{
    if samples.len() == 0 {
        (Seq::empty(), last)
    } else {
        let before = poll_run(last, samples.drop_last());
        let step = spec_observe(before.1, samples.last());
        (
            match step.0 {
                Some(e) => before.0.push(e),
                None => before.0,
            },
            step.1,
        )
    }
}

/// Over any run of polls, starting from what was last reported: every
/// report is an application some poll answered; no two reports in a row
/// are the same application, and the first differs from the one reported
/// before the run; what is remembered is the latest report; and a poll
/// that answers nothing, or the application reported last, adds no
/// report while any other answer adds exactly that one.
pub proof fn lemma_poll_run_reports_changes(last: Option<Seq<char>>, samples: Seq<Option<Seq<char>>>)
    ensures
        poll_run(last, samples).1 == (if poll_run(last, samples).0.len() == 0 {
            last
        } else {
            Some(poll_run(last, samples).0.last())
        }),
        forall|i: int, j: int|
            0 <= i && j == i + 1 && j < poll_run(last, samples).0.len() ==> #[trigger] poll_run(
                last,
                samples,
            ).0[i] != #[trigger] poll_run(last, samples).0[j],
        poll_run(last, samples).0.len() > 0 ==> last != Some(poll_run(last, samples).0[0]),
        forall|i: int|
            0 <= i < poll_run(last, samples).0.len() ==> exists|j: int|
                0 <= j < samples.len() && #[trigger] samples[j] == Some(
                    #[trigger] poll_run(last, samples).0[i],
                ),
        poll_run(last, samples).0.len() <= samples.len(),
        samples.len() > 0 ==> poll_run(last, samples).0 == (match samples.last() {
            Some(e) => if poll_run(last, samples.drop_last()).1 == Some(e) {
                poll_run(last, samples.drop_last()).0
            } else {
                poll_run(last, samples.drop_last()).0.push(e)
            },
            None => poll_run(last, samples.drop_last()).0,
        }),
    decreases samples.len(),
{
    if samples.len() > 0 {
        let init = samples.drop_last();
        lemma_poll_run_reports_changes(last, init);
        let before = poll_run(last, init);
        let r = poll_run(last, samples).0;
        assert forall|i: int| 0 <= i < r.len() implies exists|j: int|
            0 <= j < samples.len() && #[trigger] samples[j] == Some(#[trigger] r[i]) by {
            if i < before.0.len() {
                assert(r[i] == before.0[i]);
                let j = choose|j: int| 0 <= j < init.len() && #[trigger] init[j] == Some(before.0[i]);
                assert(samples[j] == init[j]);
            } else {
                assert(samples[samples.len() - 1] == Some(r[i]));
            }
        }
        assert forall|i: int, j: int|
            0 <= i && j == i + 1 && j < r.len() implies #[trigger] r[i] != #[trigger] r[j] by {
            if j < before.0.len() {
                assert(r[i] == before.0[i] && r[j] == before.0[j]);
            }
        }
    }
}

/// A tool that prints the process id of the active window.
#[derive(Clone, Copy, PartialEq, Eq, Structural, Debug)]
pub enum ForegroundTool {
    Xdotool,
    Kdotool,
}

/// The tools to try, in order: on Wayland only KDE's tool (then xdotool
/// for XWayland windows) and nothing on other desktops; xdotool on X11.
pub open spec fn spec_foreground_tools(session_type: Seq<char>, current_desktop: Seq<char>) -> Seq<
    ForegroundTool,
> {
    if str_lower(session_type) == "wayland"@ {
        if has_infix(str_upper(current_desktop), "KDE"@) {
            seq![ForegroundTool::Kdotool, ForegroundTool::Xdotool]
        } else {
            Seq::empty()
        }
    } else {
        seq![ForegroundTool::Xdotool]
    }
}

/// Chooses the tools from `$XDG_SESSION_TYPE` and `$XDG_CURRENT_DESKTOP`
/// (empty when unset).
pub fn foreground_tools(session_type: &str, current_desktop: &str) -> (r: Vec<ForegroundTool>)
    ensures
        r@ == spec_foreground_tools(session_type@, current_desktop@),
{
    let session = to_lowercase(session_type);
    let r = if str_eq(session.as_str(), "wayland") {
        let desktop = to_uppercase(current_desktop);
        let dc = chars_of(desktop.as_str());
        let kde = chars_of("KDE");
        if chars_contain(&dc, &kde) {
            vec![ForegroundTool::Kdotool, ForegroundTool::Xdotool]
        } else {
            Vec::new()
        }
    } else {
        vec![ForegroundTool::Xdotool]
    };
    assert(r@ =~= spec_foreground_tools(session_type@, current_desktop@));
    r
}

/// The program of a tool; both are run with the arguments
/// "getactivewindow getwindowpid".
pub fn tool_program(t: ForegroundTool) -> (r: &'static str)
    ensures
        r == (match t {
            ForegroundTool::Xdotool => "xdotool",
            ForegroundTool::Kdotool => "kdotool",
        }),
{
    match t {
        ForegroundTool::Xdotool => "xdotool",
        ForegroundTool::Kdotool => "kdotool",
    }
}

pub open spec fn is_digit(c: char) -> bool {
    '0' <= c <= '9'
}

/// The value of a string of decimal digits.
pub open spec fn digits_value(s: Seq<char>) -> nat
    decreases s.len(),
{
    if s.len() == 0 {
        0
    } else {
        digits_value(s.drop_last()) * 10 + ((s.last() as u32) - 48) as nat
    }
}

/// `s` without a leading '+'.
pub open spec fn unsigned_digits(s: Seq<char>) -> Seq<char> {
    if s.len() > 0 && s[0] == '+' {
        s.drop_first()
    } else {
        s
    }
}

pub open spec fn all_digits(s: Seq<char>) -> bool {
    forall|i: int| 0 <= i < s.len() ==> is_digit(#[trigger] s[i])
}

/// What parsing a `u32` from `s` gives: an optional '+' and then at least
/// one decimal digit and nothing else, with a value that fits.
pub open spec fn spec_parse_u32(s: Seq<char>) -> Option<u32> {
    let digits = unsigned_digits(s);
    if digits.len() == 0 {
        None
    } else if !all_digits(digits) {
        None
    } else if digits_value(digits) > u32::MAX {
        None
    } else {
        Some(digits_value(digits) as u32)
    }
}

proof fn lemma_digits_value_grows(s: Seq<char>, n: int)
    requires
        0 <= n <= s.len(),
        all_digits(s),
    ensures
        digits_value(s.take(n)) <= digits_value(s),
    decreases s.len() - n,
{
    if n < s.len() {
        lemma_digits_value_grows(s, n + 1);
        assert(s.take(n + 1).drop_last() =~= s.take(n));
    } else {
        assert(s.take(n) =~= s);
    }
}

/// Parses the process id printed by a tool (surrounding white space is
/// ignored).
pub fn parse_pid(stdout: &str) -> (r: Option<u32>)
    ensures
        r == spec_parse_u32(trim(stdout@)),
{
    let all = chars_of(stdout);
    let t = trim_chars(&all);
    let start: usize = if t.len() > 0 && t[0] == '+' { 1 } else { 0 };
    let ghost digits = unsigned_digits(t@);
    assert(digits =~= t@.subrange(start as int, t@.len() as int));
    if start >= t.len() {
        return None;
    }
    let mut value: u64 = 0;
    let mut i: usize = start;
    while i < t.len()
        invariant
            t@ == trim(stdout@),
            start <= i <= t.len(),
            digits.len() == t.len() - start,
            digits == unsigned_digits(t@),
            forall|j: int| 0 <= j < digits.len() ==> digits[j] == #[trigger] t@[j + start],
            forall|j: int| 0 <= j < i - start ==> is_digit(#[trigger] digits[j]),
            value as nat == digits_value(digits.take(i - start)),
            value <= u32::MAX,
        decreases t.len() - i,
    {
        let c = t[i];
        let ghost k = i - start;
        assert(digits[k] == t@[k + start]);
        assert(digits.take(k + 1).drop_last() =~= digits.take(k));
        if !('0' <= c && c <= '9') {
            assert(!is_digit(digits[k]));
            return None;
        }
        let d = (c as u32 - 48) as u64;
        let next = value * 10 + d;
        if next > u32::MAX as u64 {
            proof {
                if all_digits(digits) {
                    lemma_digits_value_grows(digits, k + 1);
                }
            }
            return None;
        }
        value = next;
        i += 1;
    }
    assert(digits.take(digits.len() as int) =~= digits);
    Some(value as u32)
}

/// The link that names a process's executable: "/proc/PID/exe".
pub fn proc_exe_link(pid: u32) -> (r: String)
    ensures
        r@ == "/proc/"@ + decimal(pid as nat) + "/exe"@,
{
    let mut out = chars_of("/proc/");
    push_decimal_padded(&mut out, pid as u64, 0);
    extend_str(&mut out, "/exe");
    assert(out@ =~= "/proc/"@ + decimal(pid as nat) + "/exe"@);
    string_of(&out)
}

/// What an AppleScript run answered: its output without surrounding white
/// space, when it succeeded and printed something.
pub open spec fn spec_osascript_output(success: bool, stdout: Seq<char>) -> Option<Seq<char>> {
    if success && trim(stdout).len() > 0 {
        Some(trim(stdout))
    } else {
        None
    }
}

pub fn osascript_output(success: bool, stdout: &str) -> (r: Option<String>)
    ensures
        opt_view(r) == spec_osascript_output(success, stdout@),
{
    if !success {
        return None;
    }
    let all = chars_of(stdout);
    let t = trim_chars(&all);
    if t.len() == 0 {
        None
    } else {
        Some(string_of(&t))
    }
}

// ---------------------------------------------------------------------------
// Windows: which process the foreground window stands for
// ---------------------------------------------------------------------------

/// Window classes of genuine File Explorer and shell windows.
pub open spec fn spec_explorer_classes() -> Seq<Seq<char>> {
    seq!["CabinetWClass"@, "Shell_TrayWnd"@, "Shell_SecondaryTrayWnd"@, "Progman"@, "WorkerW"@]
}

pub fn explorer_classes() -> (r: Vec<&'static str>)
    ensures
        r@.map_values(|c: &'static str| c@) == spec_explorer_classes(),
{
    let v = vec!["CabinetWClass", "Shell_TrayWnd", "Shell_SecondaryTrayWnd", "Progman", "WorkerW"];
    proof {
        reveal_strlit("CabinetWClass");
        reveal_strlit("Shell_TrayWnd");
        reveal_strlit("Shell_SecondaryTrayWnd");
        reveal_strlit("Progman");
        reveal_strlit("WorkerW");
    }
    assert(v@.map_values(|c: &'static str| c@) =~= spec_explorer_classes());
    v
}

/// The characters after the last path separator ('\\' or '/').
pub open spec fn file_name(path: Seq<char>) -> Seq<char>
    decreases path.len(),
{
    if path.len() == 0 {
        path
    } else if path.last() == '\\' || path.last() == '/' {
        Seq::empty()
    } else {
        file_name(path.drop_last()).push(path.last())
    }
}

/// The lower-cased file name of an executable path.
pub fn exe_base_lower(path: &str) -> (r: String)
    ensures
        r@ == str_lower(file_name(path@)),
{
    let c = chars_of(path);
    let mut name: Vec<char> = Vec::new();
    let mut i: usize = 0;
    while i < c.len()
        invariant
            c@ == path@,
            i <= c.len(),
            name@ == file_name(c@.take(i as int)),
        decreases c.len() - i,
    {
        assert(c@.take(i + 1).drop_last() =~= c@.take(i as int));
        if c[i] == '\\' || c[i] == '/' {
            name = Vec::new();
        } else {
            name.push(c[i]);
        }
        i += 1;
    }
    assert(c@.take(c.len() as int) =~= c@);
    to_lowercase(string_of(&name).as_str())
}

/// What the foreground window's process stands for.
#[derive(Clone, Copy, PartialEq, Eq, Structural, Debug)]
pub enum ForegroundPlan {
    /// The process itself.
    UseExe,
    /// A store-app host: the hosted child process.
    HostedChild,
    /// Explorer showing something other than a shell window: the hosted
    /// child, else any visible hosted app.
    ShellFallback,
}

pub open spec fn is_host_name(base_lower: Seq<char>) -> bool {
    base_lower == "applicationframehost.exe"@
}

pub open spec fn spec_foreground_plan(exe_path: Seq<char>, window_class: Seq<char>) -> ForegroundPlan {
    let base = str_lower(file_name(exe_path));
    if is_host_name(base) {
        ForegroundPlan::HostedChild
    } else if base == "explorer.exe"@ && !spec_explorer_classes().contains(window_class) {
        ForegroundPlan::ShellFallback
    } else {
        ForegroundPlan::UseExe
    }
}

/// How the foreground window of process `exe_path`, of window class
/// `window_class`, is resolved on Windows.
pub fn foreground_plan(exe_path: &str, window_class: &str) -> (r: ForegroundPlan)
    ensures
        r == spec_foreground_plan(exe_path@, window_class@),
{
    let base = exe_base_lower(exe_path);
    if str_eq(base.as_str(), "applicationframehost.exe") {
        return ForegroundPlan::HostedChild;
    }
    if str_eq(base.as_str(), "explorer.exe") {
        let classes = explorer_classes();
        let mut i: usize = 0;
        while i < classes.len()
            invariant
                classes@.map_values(|c: &'static str| c@) == spec_explorer_classes(),
                i <= classes.len(),
                forall|j: int| 0 <= j < i ==> spec_explorer_classes()[j] != window_class@,
                base@ == str_lower(file_name(exe_path@)),
                base@ == "explorer.exe"@,
                !is_host_name(base@),
            decreases classes.len() - i,
        {
            assert(spec_explorer_classes()[i as int] == classes@[i as int]@);
            if str_eq(classes[i], window_class) {
                assert(spec_explorer_classes().contains(window_class@));
                return ForegroundPlan::UseExe;
            }
            i += 1;
        }
        return ForegroundPlan::ShellFallback;
    }
    ForegroundPlan::UseExe
}

/// Whether a child window's process (`child_pid`, at `child_path`) is the
/// app hosted by a store-app host of process `host_pid`.
pub fn is_hosted_app(host_pid: u32, child_pid: u32, child_path: &str) -> (r: bool)
    ensures
        r == (child_pid != 0 && child_pid != host_pid && !is_host_name(str_lower(file_name(child_path@)))),
{
    if child_pid == 0 || child_pid == host_pid {
        return false;
    }
    let base = exe_base_lower(child_path);
    !str_eq(base.as_str(), "applicationframehost.exe")
}

} // verus!
