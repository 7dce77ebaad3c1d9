use mouser::app_detector::{exe_base_lower, AppDetector, explorer_classes, foreground_plan, foreground_tools, is_hosted_app, osascript_output, parse_pid, proc_exe_link, ForegroundPlan, ForegroundTool, ForegroundTracker};
use mouser::cli::parse_args;
use mouser::config::Config;
use mouser::hid_gesture::HidBackend;
use mouser::startup::{desktop_entry, domain, launch_agent_plist, to_wide_null};
use mouser::ui::{action_label, button_label, UiState};

#[test]
fn ui_state_defaults_and_updates() {
    let mut s = UiState::default();
    assert_eq!(s.device_name, "No device");
    assert_eq!(s.current_profile, "default");
    assert!(s.enabled);
    s.on_device_connected("MX Master 3S");
    s.on_battery(80);
    s.on_dpi_changed(1600);
    assert_eq!(s.device_name, "MX Master 3S");
    assert_eq!(s.battery_pct, Some(80));
    assert_eq!(s.dpi, 1600);
    s.on_device_disconnected();
    assert_eq!(s.device_name, "No device");
    assert_eq!(s.battery_pct, None);
}

#[test]
fn ui_state_from_config() {
    let mut cfg = Config::default();
    cfg.active_profile = "work".into();
    cfg.settings.dpi = 2400;
    let s = UiState::from_config(&cfg);
    assert_eq!(s.current_profile, "work");
    assert_eq!(s.dpi, 2400);
    assert_eq!(s.smart_shift_mode, "ratchet");
}

#[test]
fn labels() {
    assert_eq!(button_label("xbutton1"), "Back Button");
    assert_eq!(button_label("hscroll_right"), "H-Scroll Right");
    assert_eq!(button_label("weird"), "weird");
    assert_eq!(action_label("copy"), "Copy");
    assert_eq!(action_label("custom:ctrl+s"), "Ctrl + S");
    assert_eq!(action_label("mystery"), "mystery");
}

#[test]
fn command_line() {
    let args: Vec<String> = ["--debug", "--hid-backend=iokit", "--start-hidden", "--bogus"]
        .iter()
        .map(|s| s.to_string())
        .collect();
    let o = parse_args(&args);
    assert!(o.debug && o.start_hidden && !o.settings_only);
    assert_eq!(o.hid_backend, HidBackend::IOKit);
    let o = parse_args(&vec!["--hid-backend=hidapi".into(), "--hid-backend=x".into(), "--settings".into()]);
    assert_eq!(o.hid_backend, HidBackend::Auto);
    assert!(o.settings_only);
    assert_eq!(parse_args(&vec![]).hid_backend, HidBackend::Auto);
}

#[test]
fn foreground_tracking() {
    let mut t = ForegroundTracker::new();
    assert_eq!(t.observe(Some("a")).as_deref(), Some("a"));
    assert_eq!(t.observe(Some("a")), None);
    assert_eq!(t.observe(None), None);
    assert_eq!(t.observe(Some("b")).as_deref(), Some("b"));
}

#[test]
fn linux_foreground_tools() {
    assert_eq!(foreground_tools("x11", ""), vec![ForegroundTool::Xdotool]);
    assert_eq!(foreground_tools("Wayland", "KDE"), vec![ForegroundTool::Kdotool, ForegroundTool::Xdotool]);
    assert!(foreground_tools("wayland", "GNOME").is_empty());
}

#[test]
fn pid_parsing() {
    assert_eq!(parse_pid(" 1234\n"), Some(1234));
    assert_eq!(parse_pid("+7"), Some(7));
    assert_eq!(parse_pid("12a"), None);
    assert_eq!(parse_pid(""), None);
    assert_eq!(parse_pid("+"), None);
    assert_eq!(parse_pid("4294967295"), Some(u32::MAX));
    assert_eq!(parse_pid("4294967296"), None);
    assert_eq!(proc_exe_link(42), "/proc/42/exe");
}

#[test]
fn osascript_answers() {
    assert_eq!(osascript_output(true, " com.apple.finder\n").as_deref(), Some("com.apple.finder"));
    assert_eq!(osascript_output(true, "  \n"), None);
    assert_eq!(osascript_output(false, "x"), None);
}

#[test]
fn startup_entries() {
    assert_eq!(to_wide_null("Ab"), vec![0x41, 0x62, 0]);
    assert_eq!(to_wide_null("\u{1F600}"), vec![0xD83D, 0xDE00, 0]);
    assert_eq!(domain(501), "gui/501");
    let d = desktop_entry("/usr/bin/mouser");
    assert!(d.starts_with("[Desktop Entry]\n"));
    assert!(d.contains("Exec=/usr/bin/mouser\n"));
    let p = launch_agent_plist("/Applications/Mouser");
    assert!(p.contains("<string>io.github.tombadash.mouser</string>"));
    assert!(p.contains("<string>/Applications/Mouser</string>"));
}

#[test]
fn windows_foreground_resolution() {
    assert_eq!(exe_base_lower("C:\\Windows\\System32\\ApplicationFrameHost.exe"), "applicationframehost.exe");
    assert_eq!(exe_base_lower("/usr/bin/Code"), "code");
    assert_eq!(exe_base_lower("plain.EXE"), "plain.exe");
    assert_eq!(explorer_classes().len(), 5);
    assert_eq!(
        foreground_plan("C:\\Windows\\System32\\ApplicationFrameHost.exe", "ApplicationFrameWindow"),
        ForegroundPlan::HostedChild
    );
    assert_eq!(foreground_plan("C:\\Windows\\explorer.exe", "CabinetWClass"), ForegroundPlan::UseExe);
    assert_eq!(foreground_plan("C:\\Windows\\explorer.exe", "Windows.UI.Core.CoreWindow"), ForegroundPlan::ShellFallback);
    assert_eq!(foreground_plan("C:\\Apps\\chrome.exe", "Chrome_WidgetWin_1"), ForegroundPlan::UseExe);
    assert!(is_hosted_app(10, 11, "C:\\Apps\\Calculator.exe"));
    assert!(!is_hosted_app(10, 10, "C:\\Apps\\Calculator.exe"));
    assert!(!is_hosted_app(10, 0, "C:\\Apps\\Calculator.exe"));
    assert!(!is_hosted_app(10, 11, "C:\\Windows\\ApplicationFrameHost.exe"));
}

#[test]
fn kde_detected_in_any_case() {
    assert_eq!(foreground_tools("WAYLAND", "kde"), vec![ForegroundTool::Kdotool, ForegroundTool::Xdotool]);
}

#[test]
fn foreground_run_reports_each_change_once() {
    let mut t = ForegroundTracker::new();
    let samples = [Some("a"), Some("a"), None, Some("b"), Some("b"), Some("a"), None, Some("a")];
    let reports: Vec<String> = samples.iter().filter_map(|s| t.observe(*s)).collect();
    assert_eq!(reports, vec!["a", "b", "a"]);
    assert_eq!(t.last_exe.as_deref(), Some("a"));
}

#[test]
fn detector_starts_one_poller() {
    let mut d = AppDetector::new(300);
    assert!(!d.running);
    assert!(d.start());
    assert!(!d.start());
    assert!(d.running);
    d.stop();
    assert!(!d.running);
    assert!(d.start());
    assert_eq!(d.interval_ms, 300);
}
