use auto_keypress::key_sender::{
    accessibility_trusted, key_names, macos_key_code, macos_key_events, make_lparam_down,
    make_lparam_up, open_accessibility_settings, vk_to_char, windows_key_messages, KeyMessage,
    SendMode, VirtualKey, ACCESSIBILITY_SETTINGS_URL, KEY_COUNT, WM_CHAR, WM_KEYDOWN, WM_KEYUP,
};

#[test]
fn macos_supports_all_configured_keys() {
    let unsupported: Vec<&str> = key_names()
        .iter()
        .filter_map(|(name, vk)| macos_key_code(*vk).is_none().then_some(*name))
        .collect();

    assert!(
        unsupported.is_empty(),
        "macOS 仍有未映射按键: {unsupported:?}"
    );
}

#[test]
fn macos_key_code_matches_known_values() {
    assert_eq!(macos_key_code(VirtualKey(0x41)), Some(0x00));
    assert_eq!(macos_key_code(VirtualKey(0x0D)), Some(0x24));
    assert_eq!(macos_key_code(VirtualKey(0x2E)), Some(0x75));
    assert_eq!(macos_key_code(VirtualKey(0x78)), Some(0x65));
    assert_eq!(macos_key_code(VirtualKey(0x25)), Some(0x7B));
}

#[test]
fn macos_accessibility_settings_url_is_expected() {
    assert_eq!(
        ACCESSIBILITY_SETTINGS_URL,
        "x-apple.systempreferences:com.apple.preference.security?Privacy_Accessibility"
    );
}

#[test]
fn key_names_cover_the_table() {
    let names = key_names();
    assert_eq!(names.len(), KEY_COUNT);
    assert_eq!(names[0], ("A", VirtualKey(0x41)));
    assert_eq!(names[KEY_COUNT - 1], ("RIGHT", VirtualKey(0x27)));
    for (name, vk) in names.iter() {
        assert_eq!(vk.name(), *name);
    }
}

#[test]
fn unknown_key_has_question_mark_name() {
    assert_eq!(VirtualKey(0xFF).name(), "?");
    assert_eq!(VirtualKey(0x0D).name(), "ENTER");
    assert_eq!(VirtualKey(0x7B).name(), "F12");
}

#[test]
fn send_mode_labels_and_order() {
    assert_eq!(SendMode::PostMessage.label(), "PostMessage");
    assert_eq!(SendMode::SendMessage.label(), "SendMessage");
    assert_eq!(SendMode::all(), [SendMode::PostMessage, SendMode::SendMessage]);
}

#[test]
fn windows_characters_for_keys() {
    assert_eq!(vk_to_char(0x20), Some(' ' as u32));
    assert_eq!(vk_to_char(0x0D), Some('\r' as u32));
    assert_eq!(vk_to_char(0x09), Some('\t' as u32));
    assert_eq!(vk_to_char(0x37), Some('7' as u32));
    assert_eq!(vk_to_char(0x41), Some('a' as u32));
    assert_eq!(vk_to_char(0x5A), Some('z' as u32));
    assert_eq!(vk_to_char(0x70), None);
}

#[test]
fn lparam_bits() {
    assert_eq!(make_lparam_down(0x1C), 0x001C_0001);
    assert_eq!(make_lparam_up(0x1C), 0xC01C_0001);
    assert_eq!(make_lparam_down(0x1FF), 0x00FF_0001);
}

#[test]
fn windows_messages_for_a_letter_and_a_function_key() {
    let m = windows_key_messages(VirtualKey(0x41), 0x1E);
    assert_eq!(
        m,
        vec![
            KeyMessage { msg: WM_KEYDOWN, wparam: 0x41, lparam: 0x001E_0001 },
            KeyMessage { msg: WM_CHAR, wparam: 'a' as u32, lparam: 0x001E_0001 },
            KeyMessage { msg: WM_KEYUP, wparam: 0x41, lparam: 0xC01E_0001 },
        ]
    );
    let f = windows_key_messages(VirtualKey(0x70), 0x3B);
    assert_eq!(
        f,
        vec![
            KeyMessage { msg: WM_KEYDOWN, wparam: 0x70, lparam: 0x003B_0001 },
            KeyMessage { msg: WM_KEYUP, wparam: 0x70, lparam: 0xC03B_0001 },
        ]
    );
}

#[test]
fn macos_events_need_a_process_and_a_code() {
    assert_eq!(macos_key_events(42, VirtualKey(0x0D)), vec![(0x24, true), (0x24, false)]);
    assert_eq!(macos_key_events(0, VirtualKey(0x0D)), vec![]);
    assert_eq!(macos_key_events(-5, VirtualKey(0x41)), vec![]);
    assert_eq!(macos_key_events(42, VirtualKey(0xFF)), vec![]);
}

#[test]
fn fallback_platform_permissions() {
    assert!(accessibility_trusted());
    assert!(!open_accessibility_settings());
}

#[test]
fn macos_codes_only_for_table_keys_and_distinct() {
    let mut codes: Vec<u16> = Vec::new();
    for (_, vk) in key_names() {
        let k = macos_key_code(vk).expect("every table key has a macOS code");
        assert!(!codes.contains(&k));
        codes.push(k);
    }
    assert_eq!(codes.len(), KEY_COUNT);
    let table: Vec<u16> = key_names().iter().map(|e| e.1 .0).collect();
    for code in 0u16..=0x1FF {
        assert_eq!(macos_key_code(VirtualKey(code)).is_some(), table.contains(&code));
    }
}
