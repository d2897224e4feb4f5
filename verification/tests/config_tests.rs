use auto_keypress::config::{config_from_state, AppConfig, TaskConfig};
use auto_keypress::i18n::Language;
use auto_keypress::key_sender::{SendMode, VirtualKey};

#[test]
fn default_config_presses_enter() {
    let c = AppConfig::default();
    assert_eq!(c.send_mode, "PostMessage");
    assert_eq!(c.language, "en");
    assert!(!c.always_on_top);
    assert_eq!(c.tasks.len(), 1);
    assert_eq!(c.tasks[0].key_name, "ENTER");
    assert_eq!(c.tasks[0].vk, 0x0D);
    assert_eq!(c.tasks[0].interval_ms, 200);
    assert_eq!(c.send_mode_enum(), SendMode::PostMessage);
    assert_eq!(c.language_enum(), Language::En);
}

#[test]
fn send_mode_names() {
    let mut c = AppConfig::default();
    c.send_mode = "SendMessage".to_string();
    assert_eq!(c.send_mode_enum(), SendMode::SendMessage);
    c.send_mode = "sendmessage".to_string();
    assert_eq!(c.send_mode_enum(), SendMode::PostMessage);
    c.send_mode = String::new();
    assert_eq!(c.send_mode_enum(), SendMode::PostMessage);
}

#[test]
fn config_from_state_saves_everything() {
    let tasks = [(VirtualKey(0x41), 150u64), (VirtualKey(0x78), 1000u64), (VirtualKey(0x99), 5u64)];
    let c = config_from_state(SendMode::SendMessage, Language::ZhCn, true, &tasks);
    assert_eq!(c.send_mode, "SendMessage");
    assert_eq!(c.language, "zh-CN");
    assert!(c.always_on_top);
    assert_eq!(c.tasks.len(), 3);
    assert_eq!(c.tasks[0].key_name, "A");
    assert_eq!(c.tasks[0].vk, 0x41);
    assert_eq!(c.tasks[0].interval_ms, 150);
    assert_eq!(c.tasks[1].key_name, "F9");
    assert_eq!(c.tasks[2].key_name, "?");
    assert_eq!(c.send_mode_enum(), SendMode::SendMessage);
    assert_eq!(c.language_enum(), Language::ZhCn);
}

#[test]
fn task_config_fields() {
    let t = TaskConfig { key_name: "TAB".to_string(), vk: 0x09, interval_ms: 40 };
    assert_eq!(t.clone().interval_ms, 40);
}
