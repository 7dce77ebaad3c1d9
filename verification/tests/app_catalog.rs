use mouser::app_catalog::{app_catalog, find_app_by_exe, find_apps_by_name};

#[test]
fn test_catalog_non_empty() {
    assert!(!app_catalog().is_empty(), "APP_CATALOG must not be empty");
}

#[test]
fn test_find_chrome_windows() {
    let entry = find_app_by_exe("chrome.exe");
    assert!(entry.is_some(), "chrome.exe must be in the catalog");
    let entry = entry.unwrap();
    assert_eq!(entry.display_name, "Google Chrome");
    assert_eq!(entry.icon_hint, Some("chrom.png"));
}

#[test]
fn test_find_chrome_macos() {
    let entry = find_app_by_exe("com.google.Chrome");
    assert!(entry.is_some(), "com.google.Chrome must be in the catalog");
    assert_eq!(entry.unwrap().display_name, "Google Chrome");
}

#[test]
fn test_find_app_by_exe_case_insensitive() {
    assert!(find_app_by_exe("CHROME.EXE").is_some());
    assert!(find_app_by_exe("Chrome.Exe").is_some());
}

#[test]
fn test_find_app_by_exe_missing() {
    assert!(find_app_by_exe("this_does_not_exist.exe").is_none());
}

#[test]
fn test_find_apps_by_name_substring() {
    let results = find_apps_by_name("Adobe");
    assert!(!results.is_empty(), "should find at least one Adobe app");
    for e in &results {
        assert!(
            e.display_name.to_lowercase().contains("adobe"),
            "unexpected entry: {}",
            e.display_name
        );
    }
}

#[test]
fn test_find_apps_by_name_empty_query() {
    let results = find_apps_by_name("");
    assert_eq!(results.len(), app_catalog().len());
}

#[test]
fn test_no_duplicate_exes() {
    let mut seen = std::collections::HashSet::new();
    for entry in app_catalog() {
        let lower = entry.exe.to_lowercase();
        assert!(seen.insert(lower.clone()), "Duplicate exe in APP_CATALOG: {}", entry.exe);
    }
}

#[test]
fn test_vscode_windows_and_macos_both_present() {
    assert!(find_app_by_exe("Code.exe").is_some());
    assert!(find_app_by_exe("com.microsoft.VSCode").is_some());
}

#[test]
fn test_finder_present() {
    assert!(find_app_by_exe("com.apple.finder").is_some());
}

#[test]
fn test_vlc_has_icon_hint() {
    let entry = find_app_by_exe("vlc.exe").unwrap();
    assert_eq!(entry.icon_hint, Some("VLC.png"));
}

#[test]
fn find_apps_by_name_ignores_case_of_query() {
    let upper = find_apps_by_name("ADOBE");
    let lower = find_apps_by_name("adobe");
    assert_eq!(upper.len(), lower.len());
    assert!(!upper.is_empty());
}

#[test]
fn find_apps_by_name_keeps_catalogue_order() {
    let results = find_apps_by_name("terminal");
    let names: Vec<&str> = results.iter().map(|e| e.exe).collect();
    let all: Vec<&str> = app_catalog().iter().map(|e| e.exe).collect();
    let positions: Vec<usize> =
        names.iter().map(|n| all.iter().position(|a| a == n).unwrap()).collect();
    let mut sorted = positions.clone();
    sorted.sort();
    assert_eq!(positions, sorted);
}

#[test]
fn lookup_by_identifier_agrees_across_case() {
    let a = find_app_by_exe("CHROME.EXE").unwrap();
    let b = find_app_by_exe("chrome.exe").unwrap();
    assert_eq!(a.exe, b.exe);
    assert_eq!(a.exe.to_lowercase(), "chrome.exe");
    for e in app_catalog() {
        let upper = e.exe.to_uppercase();
        assert_eq!(find_app_by_exe(&upper).map(|f| f.exe.to_lowercase()), Some(e.exe.to_lowercase()));
    }
}

#[test]
fn lookup_matches_lookup_of_the_lower_case() {
    for exe in ["CHROME.EXE", "Chrome.Exe", "COM.GOOGLE.CHROME", "Code.exe", "nothing.EXE", ""] {
        let a = find_app_by_exe(exe).map(|e| e.exe);
        let b = find_app_by_exe(&exe.to_lowercase()).map(|e| e.exe);
        assert_eq!(a, b);
    }
}
