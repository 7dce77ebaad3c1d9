use mouser::locale::{
    action_translations, button_translations, category_translations, translations, Language,
    LocaleManager,
};

#[test]
fn test_default_language_is_english() {
    let lm = LocaleManager::default();
    assert_eq!(lm.language(), "en");
}

#[test]
fn test_set_language() {
    let mut lm = LocaleManager::new("en");
    lm.set_language("zh_CN");
    assert_eq!(lm.language(), "zh_CN");
    lm.set_language("zh_TW");
    assert_eq!(lm.language(), "zh_TW");
    lm.set_language("en");
    assert_eq!(lm.language(), "en");
}

#[test]
fn test_set_language_invalid_ignored() {
    let mut lm = LocaleManager::new("zh_CN");
    lm.set_language("fr");
    assert_eq!(lm.language(), "zh_CN");
}

#[test]
fn test_new_with_invalid_falls_back_to_en() {
    let lm = LocaleManager::new("invalid");
    assert_eq!(lm.language(), "en");
}

#[test]
fn test_tr_english() {
    let lm = LocaleManager::new("en");
    assert_eq!(lm.tr("mouse.connected"), "Connected");
    assert_eq!(lm.tr("mouse.not_connected"), "Not Connected");
    assert_eq!(lm.tr("scroll.title"), "Point & Scroll");
}

#[test]
fn test_tr_zh_cn() {
    let lm = LocaleManager::new("zh_CN");
    assert_eq!(lm.tr("mouse.connected"), "\u{5df2}\u{8fde}\u{63a5}");
    assert_eq!(lm.tr("scroll.title"), "\u{6307}\u{9488}\u{4e0e}\u{6eda}\u{8f6e}");
}

#[test]
fn test_tr_zh_tw() {
    let lm = LocaleManager::new("zh_TW");
    assert_eq!(lm.tr("mouse.connected"), "\u{5df2}\u{9023}\u{7dda}");
    assert_eq!(lm.tr("scroll.title"), "\u{6307}\u{6a19}\u{8207}\u{6372}\u{8ef8}");
}

#[test]
fn test_tr_missing_key_returns_key() {
    let lm = LocaleManager::new("en");
    assert_eq!(lm.tr("nonexistent.key"), "nonexistent.key");
}

#[test]
fn test_tr_button_english_passthrough() {
    let lm = LocaleManager::new("en");
    assert_eq!(lm.tr_button("Middle button"), "Middle button");
    assert_eq!(lm.tr_button("Gesture button"), "Gesture button");
}

#[test]
fn test_tr_button_zh_cn() {
    let lm = LocaleManager::new("zh_CN");
    assert_eq!(lm.tr_button("Middle button"), "\u{4e2d}\u{952e}");
    assert_eq!(lm.tr_button("Gesture button"), "\u{624b}\u{52bf}\u{952e}");
    assert_eq!(lm.tr_button("Back button"), "\u{540e}\u{9000}\u{952e}");
}

#[test]
fn test_tr_button_zh_tw() {
    let lm = LocaleManager::new("zh_TW");
    assert_eq!(lm.tr_button("Middle button"), "\u{4e2d}\u{9375}");
    assert_eq!(lm.tr_button("Forward button"), "\u{524d}\u{9032}\u{9375}");
}

#[test]
fn test_tr_button_unknown_returns_english() {
    let lm = LocaleManager::new("zh_CN");
    assert_eq!(lm.tr_button("Unknown button"), "Unknown button");
}

#[test]
fn test_tr_action_english_passthrough() {
    let lm = LocaleManager::new("en");
    assert_eq!(lm.tr_action("Copy (Ctrl+C)"), "Copy (Ctrl+C)");
}

#[test]
fn test_tr_action_zh_cn() {
    let lm = LocaleManager::new("zh_CN");
    assert_eq!(lm.tr_action("Copy (Ctrl+C)"), "\u{590d}\u{5236} (Ctrl+C)");
    assert_eq!(lm.tr_action("Volume Up"), "\u{97f3}\u{91cf}\u{589e}\u{5927}");
    assert_eq!(lm.tr_action("Browser Back"), "\u{6d4f}\u{89c8}\u{5668}\u{540e}\u{9000}");
}

#[test]
fn test_tr_action_zh_tw() {
    let lm = LocaleManager::new("zh_TW");
    assert_eq!(lm.tr_action("Copy (Ctrl+C)"), "\u{8907}\u{88fd} (Ctrl+C)");
    assert_eq!(lm.tr_action("Paste (Cmd+V)"), "\u{8cbc}\u{4e0a} (Cmd+V)");
}

#[test]
fn test_tr_action_unknown_returns_english() {
    let lm = LocaleManager::new("zh_CN");
    assert_eq!(lm.tr_action("Some Unknown Action"), "Some Unknown Action");
}

#[test]
fn test_tr_category_english_passthrough() {
    let lm = LocaleManager::new("en");
    assert_eq!(lm.tr_category("Browser"), "Browser");
    assert_eq!(lm.tr_category("Media"), "Media");
}

#[test]
fn test_tr_category_zh_cn() {
    let lm = LocaleManager::new("zh_CN");
    assert_eq!(lm.tr_category("Browser"), "\u{6d4f}\u{89c8}\u{5668}");
    assert_eq!(lm.tr_category("Media"), "\u{5a92}\u{4f53}");
    assert_eq!(lm.tr_category("Custom"), "\u{81ea}\u{5b9a}\u{4e49}");
}

#[test]
fn test_tr_category_zh_tw() {
    let lm = LocaleManager::new("zh_TW");
    assert_eq!(lm.tr_category("Browser"), "\u{700f}\u{89bd}\u{5668}");
    assert_eq!(lm.tr_category("Editing"), "\u{7de8}\u{8f2f}");
    assert_eq!(lm.tr_category("Navigation"), "\u{5c0e}\u{822a}");
}

#[test]
fn test_tr_category_unknown_returns_english() {
    let lm = LocaleManager::new("zh_TW");
    assert_eq!(lm.tr_category("Nonexistent"), "Nonexistent");
}

#[test]
fn test_available_languages() {
    let langs = LocaleManager::available_languages();
    assert_eq!(langs.len(), 3);
    assert_eq!(langs[0].0, "en");
    assert_eq!(langs[1].0, "zh_CN");
    assert_eq!(langs[2].0, "zh_TW");
}

#[test]
fn test_language_enum_from_code() {
    assert_eq!(Language::from_code("en"), Some(Language::En));
    assert_eq!(Language::from_code("zh_CN"), Some(Language::ZhCN));
    assert_eq!(Language::from_code("zh_TW"), Some(Language::ZhTW));
    assert_eq!(Language::from_code("fr"), None);
}

#[test]
fn test_language_enum_code_roundtrip() {
    for lang in &[Language::En, Language::ZhCN, Language::ZhTW] {
        assert_eq!(Language::from_code(lang.code()), Some(*lang));
    }
}

#[test]
fn test_all_translation_keys_present_in_all_languages() {
    for (key, en, zh_cn, zh_tw) in translations() {
        assert!(!key.is_empty(), "empty key found in TRANSLATIONS");
        assert!(!en.is_empty(), "empty en value for key: {key}");
        assert!(!zh_cn.is_empty(), "empty zh_CN value for key: {key}");
        assert!(!zh_tw.is_empty(), "empty zh_TW value for key: {key}");
    }
}

#[test]
fn test_all_button_translations_present() {
    for (en, zh_cn, zh_tw) in button_translations() {
        assert!(!en.is_empty());
        assert!(!zh_cn.is_empty());
        assert!(!zh_tw.is_empty());
    }
}

#[test]
fn test_all_action_translations_present() {
    for (en, zh_cn, zh_tw) in action_translations() {
        assert!(!en.is_empty());
        assert!(!zh_cn.is_empty());
        assert!(!zh_tw.is_empty());
    }
}

#[test]
fn test_all_category_translations_present() {
    for (en, zh_cn, zh_tw) in category_translations() {
        assert!(!en.is_empty());
        assert!(!zh_cn.is_empty());
        assert!(!zh_tw.is_empty());
    }
}

#[test]
fn test_tray_translations() {
    let lm = LocaleManager::new("zh_CN");
    assert_eq!(lm.tr("tray.quit"), "\u{9000}\u{51fa} Mouser");
    let lm = LocaleManager::new("zh_TW");
    assert_eq!(lm.tr("tray.quit"), "\u{7d50}\u{675f} Mouser");
}

#[test]
fn test_accessibility_translations() {
    let lm = LocaleManager::new("zh_CN");
    assert_eq!(
        lm.tr("accessibility.title"),
        "\u{9700}\u{8981}\u{8f85}\u{52a9}\u{529f}\u{80fd}\u{6743}\u{9650}"
    );
    let lm = LocaleManager::new("zh_TW");
    assert_eq!(
        lm.tr("accessibility.title"),
        "\u{9700}\u{8981}\u{8f14}\u{52a9}\u{4f7f}\u{7528}\u{6b0a}\u{9650}"
    );
}

#[test]
fn test_custom_shortcut_action() {
    let lm = LocaleManager::new("zh_CN");
    assert_eq!(
        lm.tr_action("Custom Shortcut\u{2026}"),
        "\u{81ea}\u{5b9a}\u{4e49}\u{5feb}\u{6377}\u{952e}\u{2026}"
    );
    let lm = LocaleManager::new("zh_TW");
    assert_eq!(lm.tr_action("Custom Shortcut\u{2026}"), "\u{81ea}\u{8a02}\u{5feb}\u{901f}\u{9375}\u{2026}");
}

#[test]
fn test_language_switch_updates_translations() {
    let mut lm = LocaleManager::new("en");
    assert_eq!(lm.tr("mouse.connected"), "Connected");
    lm.set_language("zh_CN");
    assert_eq!(lm.tr("mouse.connected"), "\u{5df2}\u{8fde}\u{63a5}");
    lm.set_language("zh_TW");
    assert_eq!(lm.tr("mouse.connected"), "\u{5df2}\u{9023}\u{7dda}");
}
