use auto_keypress::app_state::{
    block_message, keystroke_to_vk, parse_interval_ms, status_text, vk_for_uppercased_key,
    AppState, StartBlockReason, ToggleOutcome,
};
use auto_keypress::config::{AppConfig, TaskConfig};
use auto_keypress::i18n::Language;
use auto_keypress::key_sender::{key_names, SendMode, VirtualKey};
use auto_keypress::scheduler::SendStats;
use auto_keypress::text::decimal_string;
use auto_keypress::window_picker::{MousePressPoll, MousePressSnapshot, WindowInfo};

fn two_task_config() -> AppConfig {
    AppConfig {
        send_mode: "SendMessage".to_string(),
        language: "zh-CN".to_string(),
        always_on_top: true,
        tasks: vec![
            TaskConfig { key_name: "A".to_string(), vk: 0x41, interval_ms: 100 },
            TaskConfig { key_name: "F2".to_string(), vk: 0x71, interval_ms: 2500 },
        ],
    }
}

#[test]
fn keystrokes_name_keys() {
    assert_eq!(keystroke_to_vk("space"), Some(VirtualKey(0x20)));
    assert_eq!(keystroke_to_vk(" "), Some(VirtualKey(0x20)));
    assert_eq!(keystroke_to_vk("enter"), Some(VirtualKey(0x0D)));
    assert_eq!(keystroke_to_vk("Return"), Some(VirtualKey(0x0D)));
    assert_eq!(keystroke_to_vk("escape"), Some(VirtualKey(0x1B)));
    assert_eq!(keystroke_to_vk("pagedown"), Some(VirtualKey(0x22)));
    assert_eq!(keystroke_to_vk("a"), Some(VirtualKey(0x41)));
    assert_eq!(keystroke_to_vk("7"), Some(VirtualKey(0x37)));
    assert_eq!(keystroke_to_vk("f1"), Some(VirtualKey(0x70)));
    assert_eq!(keystroke_to_vk("f12"), Some(VirtualKey(0x7B)));
    assert_eq!(keystroke_to_vk("f13"), None);
    assert_eq!(keystroke_to_vk("f0"), None);
    assert_eq!(keystroke_to_vk("f"), Some(VirtualKey(0x46)));
    assert_eq!(keystroke_to_vk("-"), None);
    assert_eq!(keystroke_to_vk("shift"), None);
    assert_eq!(keystroke_to_vk("é"), None);
}

#[test]
fn uppercased_names_with_plus_and_zeros() {
    assert_eq!(vk_for_uppercased_key("F+9"), Some(VirtualKey(0x78)));
    assert_eq!(vk_for_uppercased_key("F01"), Some(VirtualKey(0x70)));
    assert_eq!(vk_for_uppercased_key("F-1"), None);
    assert_eq!(vk_for_uppercased_key("F100"), None);
    assert_eq!(vk_for_uppercased_key("space"), None);
}

#[test]
fn interval_texts() {
    assert_eq!(parse_interval_ms(" 250 "), Some(250));
    assert_eq!(parse_interval_ms("0"), None);
    assert_eq!(parse_interval_ms("abc"), None);
    assert_eq!(parse_interval_ms(""), None);
    assert_eq!(parse_interval_ms("+15"), Some(15));
}

#[test]
fn new_state_loads_config() {
    let s = AppState::new(&two_task_config());
    assert_eq!(s.key_tasks.len(), 2);
    assert_eq!(s.key_tasks[0].id, 1);
    assert_eq!(s.key_tasks[1].id, 2);
    assert_eq!(s.key_tasks[1].vk, VirtualKey(0x71));
    assert_eq!(s.key_tasks[1].interval_ms, 2500);
    assert_eq!(s.send_mode, SendMode::SendMessage);
    assert_eq!(s.language, Language::ZhCn);
    assert!(s.always_on_top);
    assert_eq!(s.next_task_id, 3);
    assert!(!s.is_running);
}

#[test]
fn empty_config_gets_an_enter_task() {
    let mut cfg = AppConfig::default();
    cfg.tasks.clear();
    let s = AppState::new(&cfg);
    assert_eq!(s.key_tasks.len(), 1);
    assert_eq!(s.key_tasks[0].vk, VirtualKey(0x0D));
    assert_eq!(s.key_tasks[0].interval_ms, 200);
}

#[test]
fn save_then_load_restores_state() {
    let s = AppState::new(&two_task_config());
    let c = s.save_config();
    let t = AppState::new(&c);
    assert_eq!(t.send_mode, s.send_mode);
    assert_eq!(t.language, s.language);
    assert_eq!(t.always_on_top, s.always_on_top);
    assert_eq!(t.key_tasks.len(), s.key_tasks.len());
    for (a, b) in t.key_tasks.iter().zip(s.key_tasks.iter()) {
        assert_eq!(a.vk, b.vk);
        assert_eq!(a.interval_ms, b.interval_ms);
    }
}

#[test]
fn add_then_remove_task() {
    let mut s = AppState::new(&two_task_config());
    let before = s.key_tasks.clone();
    let id = s.add_key_task();
    assert_eq!(id, 3);
    assert_eq!(s.key_tasks.len(), 3);
    assert_eq!(s.key_tasks[2].vk, VirtualKey(0x0D));
    s.remove_key_task(id);
    assert_eq!(s.key_tasks, before);
    s.remove_key_task(1);
    assert_eq!(s.key_tasks.len(), 1);
    assert_eq!(s.key_tasks[0].id, 2);
}

#[test]
fn recording_sets_the_key_once() {
    let mut s = AppState::new(&two_task_config());
    s.handle_key_record("b");
    assert_eq!(s.key_tasks[0].vk, VirtualKey(0x41));
    s.start_recording(2);
    s.handle_key_record("tab");
    assert_eq!(s.key_tasks[1].vk, VirtualKey(0x09));
    assert_eq!(s.recording_task_id, None);
    s.toggle_recording(1);
    assert_eq!(s.recording_task_id, Some(1));
    s.handle_key_record("shift");
    assert_eq!(s.key_tasks[0].vk, VirtualKey(0x41));
    assert_eq!(s.recording_task_id, None);
    s.toggle_recording(1);
    s.toggle_recording(1);
    assert_eq!(s.recording_task_id, None);
}

#[test]
fn intervals_sync_from_fields() {
    let mut s = AppState::new(&two_task_config());
    s.sync_intervals_from_inputs(&vec![Some(" 300".to_string()), Some("0".to_string())]);
    assert_eq!(s.key_tasks[0].interval_ms, 300);
    assert_eq!(s.key_tasks[1].interval_ms, 2500);
    let c = s.save_current_config(&vec![None, Some("75".to_string())]);
    assert_eq!(c.tasks[0].interval_ms, 300);
    assert_eq!(c.tasks[1].interval_ms, 75);
}

#[test]
fn start_needs_permission_target_and_tasks() {
    let mut s = AppState::new(&two_task_config());
    let texts = vec![None, None];
    assert!(s.start(true, &texts).is_none());
    s.target_window = Some(WindowInfo::new("Game".to_string(), "X".to_string()));
    assert!(s.start(true, &texts).is_none());
    s.target_window = Some(WindowInfo::windows(77, "Game".to_string(), "X".to_string()));
    assert!(s.start(false, &texts).is_none());
    assert!(!s.is_running);
    let plan = s.start(true, &vec![Some("500".to_string()), None]).expect("should start");
    assert!(s.is_running);
    assert_eq!(plan.target, 77);
    assert_eq!(plan.tasks.len(), 2);
    assert_eq!(plan.tasks[0].interval_ms, 500);
    assert_eq!(plan.send_mode, SendMode::SendMessage);
}

#[test]
fn toggle_running_starts_then_stops_and_saves() {
    let mut s = AppState::new(&two_task_config());
    s.target_window = Some(WindowInfo::windows(5, "T".to_string(), "C".to_string()));
    let texts = vec![None, None];
    match s.toggle_running(true, &texts, None) {
        ToggleOutcome::Started(p) => assert_eq!(p.target, 5),
        _ => panic!("expected a start"),
    }
    let mut stats = SendStats::new();
    stats.record_send(1);
    match s.toggle_running(true, &vec![Some("42".to_string()), None], Some(stats)) {
        ToggleOutcome::Stopped(c) => {
            assert_eq!(c.tasks[0].interval_ms, 42);
            assert_eq!(c.send_mode, "SendMessage");
        }
        _ => panic!("expected a stop"),
    }
    assert!(!s.is_running);
    assert_eq!(s.stats.count(1), 1);
    s.target_window = None;
    assert!(matches!(s.toggle_running(true, &texts, None), ToggleOutcome::NotStarted));
}

#[test]
fn picking_rounds() {
    let mut s = AppState::new(&AppConfig::default());
    let down = MousePressSnapshot { buttons_down: 1, ..MousePressSnapshot::default() };
    assert!(s.toggle_pick(down));
    assert!(s.is_picking);
    let a = WindowInfo::windows(1, "A".to_string(), "a".to_string());
    let b = WindowInfo::windows(2, "B".to_string(), "b".to_string());
    // Still holding the button that opened the picker: not armed yet.
    let held = MousePressPoll { snapshot: down, is_pressed: true, saw_new_press: false };
    let step = s.pick_step(held, Some(a.clone()));
    assert!(step.keep_picking);
    assert!(step.redraw);
    assert!(!s.pick_ready_to_confirm);
    assert_eq!(s.target_window.as_ref().map(|w| w.title.clone()), Some("A".to_string()));
    // Released: armed.
    let released = MousePressPoll { snapshot: MousePressSnapshot::default(), is_pressed: false, saw_new_press: false };
    let step = s.pick_step(released, Some(b.clone()));
    assert!(step.keep_picking);
    assert!(s.pick_ready_to_confirm);
    assert_eq!(s.target_window.as_ref().unwrap().target_hwnd(), Some(2));
    // Same window again while armed, then a click: stops.
    let step = s.pick_step(released, Some(b.clone()));
    assert!(!step.redraw);
    let click = MousePressPoll { snapshot: down, is_pressed: true, saw_new_press: true };
    let step = s.pick_step(click, None);
    assert!(!step.keep_picking);
    assert!(!s.is_picking);
    assert!(!s.pick_ready_to_confirm);
    assert_eq!(s.pick_mouse_snapshot, MousePressSnapshot::default());
    assert_eq!(s.target_window.as_ref().unwrap().target_hwnd(), Some(2));
    // Not picking: nothing happens.
    let step = s.pick_step(click, Some(a));
    assert!(!step.keep_picking);
    assert_eq!(s.target_window.as_ref().unwrap().target_hwnd(), Some(2));
}

#[test]
fn status_and_labels() {
    let text = Language::En.labels();
    assert_eq!(status_text(&text, false, true), "Accessibility permission required");
    assert_eq!(status_text(&text, true, true), "Running");
    assert_eq!(status_text(&text, true, false), "Ready");
    assert_eq!(
        block_message(&text, Some(StartBlockReason::MissingTarget)),
        Some("Pick a target window before starting")
    );
    assert_eq!(block_message(&text, None), None);
    let mut s = AppState::new(&two_task_config());
    assert_eq!(s.pick_label(&text), "Pick");
    s.start_recording(2);
    assert_eq!(s.badge_label(&text, &s.key_tasks[1]), "Press...");
    assert_eq!(s.badge_label(&text, &s.key_tasks[0]), "A");
}

#[test]
fn stats_line_lists_every_task() {
    let mut s = AppState::new(&two_task_config());
    assert_eq!(s.stats_text(), "A×0  F2×0");
    s.stats.record_send(2);
    s.stats.record_send(2);
    assert_eq!(s.stats_text(), "A×0  F2×2");
    s.key_tasks.clear();
    assert_eq!(s.stats_text(), "");
}

#[test]
fn typed_decimal_interval_reads_back() {
    for n in [1u64, 9, 10, 250, 4_000_000_000, u64::MAX] {
        assert_eq!(parse_interval_ms(&decimal_string(n)), Some(n));
    }
}

#[test]
fn recorded_keys_have_table_names() {
    for k in ["space", "enter", "tab", "escape", "backspace", "delete", "up", "down", "left", "right", "home", "end", "pageup", "pagedown", "insert", "q", "0", "9", "f1", "f10", "f12"] {
        let vk = keystroke_to_vk(k).expect("a key");
        assert_ne!(vk.name(), "?", "key {k}");
    }
}

#[test]
fn same_window_is_an_equivalence() {
    let a = WindowInfo::new("T".to_string(), "C".to_string());
    let b = WindowInfo::new("T".to_string(), "C".to_string());
    let c = WindowInfo::new("T".to_string(), "C".to_string());
    assert!(a.matches_target(&a));
    assert_eq!(a.matches_target(&b), b.matches_target(&a));
    assert!(a.matches_target(&b) && b.matches_target(&c) && a.matches_target(&c));
    let w = WindowInfo::windows(3, "T".to_string(), "C".to_string());
    assert!(!a.matches_target(&w));
    assert!(!w.matches_target(&a));
}

#[test]
fn table_names_record_their_own_keys() {
    for (name, vk) in key_names() {
        if name == "ESC" {
            assert_eq!(keystroke_to_vk(name), None);
        } else {
            assert_eq!(keystroke_to_vk(name), Some(vk), "{}", name);
            assert_eq!(keystroke_to_vk(&name.to_lowercase()), Some(vk), "{}", name);
        }
    }
}

#[test]
fn task_ids_stay_distinct() {
    let mut s = AppState::new(&two_task_config());
    let a = s.add_key_task();
    let b = s.add_key_task();
    s.remove_key_task(a);
    s.remove_key_task(1);
    let c = s.add_key_task();
    assert_ne!(c, a);
    assert_ne!(c, b);
    let ids: Vec<u32> = s.key_tasks.iter().map(|t| t.id).collect();
    assert_eq!(ids, vec![2, b, c]);
    for (i, x) in ids.iter().enumerate() {
        assert!(*x < s.next_task_id);
        for y in &ids[i + 1..] {
            assert_ne!(x, y);
        }
    }
}

#[test]
fn setting_changes_give_saved_configs() {
    let mut s = AppState::new(&two_task_config());
    let c = s.toggle_always_on_top(&vec![Some("40".to_string()), None]);
    assert!(!s.always_on_top);
    assert!(!c.always_on_top);
    assert_eq!(c.tasks[0].interval_ms, 40);
    assert_eq!(c.tasks[1].interval_ms, 2500);
    let c = s.set_send_mode(SendMode::PostMessage, &vec![None, None]);
    assert_eq!(s.send_mode, SendMode::PostMessage);
    assert_eq!(c.send_mode, "PostMessage");
    assert!(!c.always_on_top);
    let c = s.set_language(Language::En, &vec![None, None]);
    assert_eq!(s.language, Language::En);
    assert_eq!(c.language, "en");
    assert_eq!(c.send_mode, "PostMessage");
    assert_eq!(c.tasks.len(), 2);
}
