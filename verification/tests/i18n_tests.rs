use auto_keypress::i18n::Language;

#[test]
fn language_code_parsing_and_toggle_work() {
    assert_eq!(Language::from_code("zh-CN"), Language::ZhCn);
    assert_eq!(Language::from_code("ZH"), Language::ZhCn);
    assert_eq!(Language::from_code("unknown"), Language::En);
    assert_eq!(Language::En.toggle(), Language::ZhCn);
    assert_eq!(Language::ZhCn.toggle(), Language::En);
}

#[test]
fn ui_copy_switches_between_english_and_chinese() {
    let en = Language::En.labels();
    let zh = Language::ZhCn.labels();

    assert_eq!(en.app_title, "Auto Keypress");
    assert_eq!(zh.app_title, "自动按键");
    assert_eq!(zh.ready, "就绪");
    assert_eq!(en.hotkey_toggle, "F9: Toggle");
    assert_eq!(zh.accessibility_required, "需要辅助功能权限");
    assert_eq!(
        en.accessibility_hint,
        "Allow this app in System Settings -> Privacy & Security -> Accessibility"
    );
    assert_eq!(zh.open_settings, "打开设置");
    assert_eq!(zh.start_needs_window, "开始前先选择目标窗口");
}

#[test]
fn language_codes_read_back() {
    assert_eq!(Language::En.code(), "en");
    assert_eq!(Language::ZhCn.code(), "zh-CN");
    assert_eq!(Language::from_code(Language::En.code()), Language::En);
    assert_eq!(Language::from_code(Language::ZhCn.code()), Language::ZhCn);
}

#[test]
fn language_code_is_trimmed_and_case_folded() {
    assert_eq!(Language::from_code("  Zh_Hans\t"), Language::ZhCn);
    assert_eq!(Language::from_code("\u{3000}cn\u{2028}"), Language::ZhCn);
    assert_eq!(Language::from_code("zh-hans"), Language::ZhCn);
    assert_eq!(Language::from_code("z h"), Language::En);
    assert_eq!(Language::from_code(""), Language::En);
    assert_eq!(Language::from_code("zh-tw"), Language::En);
}

#[test]
fn switcher_labels() {
    assert_eq!(Language::En.switcher_label(), "EN");
    assert_eq!(Language::ZhCn.switcher_label(), "中文");
}

#[test]
fn toggle_twice_is_identity() {
    assert_eq!(Language::En.toggle().toggle(), Language::En);
    assert_eq!(Language::ZhCn.toggle().toggle(), Language::ZhCn);
}

#[test]
fn language_codes_ignore_surrounding_space_and_case() {
    for code in ["zh", "ZH-cn", "Zh_Hans", "zh-HANS", "CN", "en", "EN", "de", "zh tw"] {
        let plain = Language::from_code(code);
        assert_eq!(Language::from_code(&format!(" \t{}\u{3000}", code)), plain);
        assert_eq!(Language::from_code(&code.to_ascii_lowercase()), plain);
        assert_eq!(Language::from_code(&code.to_ascii_uppercase()), plain);
    }
}
