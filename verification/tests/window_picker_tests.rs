use auto_keypress::window_picker::{
    capture_mouse_press_snapshot, get_window_under_cursor, list_visible_windows,
    macos_buttons_down, pick_window_at_cursor, poll_macos, poll_mouse_press, poll_windows,
    visible_windows_from, windows_mouse_button_state, MousePressPoll, MousePressSnapshot,
    WindowCandidate, WindowInfo, WindowTarget,
};

#[test]
fn non_windows_window_info_has_no_target_handle() {
    let info = WindowInfo {
        target: WindowTarget::Unsupported,
        title: "Example".to_string(),
        class_name: "Demo".to_string(),
    };

    assert_eq!(info.target_hwnd(), None);
}

#[test]
fn non_windows_window_match_uses_title_and_class() {
    let first = WindowInfo::new("Example".to_string(), "Demo".to_string());
    let second = WindowInfo::new("Example".to_string(), "Demo".to_string());
    let third = WindowInfo::new("Other".to_string(), "Demo".to_string());

    assert!(first.matches_target(&second));
    assert!(!first.matches_target(&third));
}

#[test]
fn macos_window_match_uses_window_id_and_pid() {
    let first = WindowInfo::macos(7, 700, "Editor".to_string(), "Code".to_string());
    let same = WindowInfo::macos(7, 700, "Editor".to_string(), "Code".to_string());
    let other_window = WindowInfo::macos(8, 700, "Editor".to_string(), "Code".to_string());

    assert!(first.matches_target(&same));
    assert!(!first.matches_target(&other_window));
}

#[test]
fn targets_per_platform() {
    let w = WindowInfo::windows(0x1234, "Notepad".to_string(), "Edit".to_string());
    assert_eq!(w.target_hwnd(), Some(0x1234));
    let m = WindowInfo::macos(3, 222, "Doc".to_string(), "Pages".to_string());
    assert_eq!(m.target_hwnd(), Some(222));
    let other_hwnd = WindowInfo::windows(0x1234, "Other".to_string(), "X".to_string());
    assert!(w.matches_target(&other_hwnd));
    assert!(!w.matches_target(&m));
    assert_eq!(m.display_text(), "Doc");
}

#[test]
fn windows_mouse_state_bits() {
    assert_eq!(windows_mouse_button_state([0x8000, 0, 0]), (1, 0));
    assert_eq!(windows_mouse_button_state([0x8001, 0x0001, 0x8000]), (5, 3));
    assert_eq!(windows_mouse_button_state([0, 0, 0]), (0, 0));
}

#[test]
fn windows_poll_sees_presses() {
    let previous = MousePressSnapshot { buttons_down: 1, ..MousePressSnapshot::default() };
    let held = poll_windows(previous, 1, 0);
    assert!(held.is_pressed);
    assert!(!held.saw_new_press);
    let new_button = poll_windows(previous, 3, 0);
    assert!(new_button.saw_new_press);
    let quick_click = poll_windows(previous, 0, 1);
    assert!(!quick_click.is_pressed);
    assert!(quick_click.saw_new_press);
    assert_eq!(quick_click.snapshot.buttons_down, 0);
}

#[test]
fn macos_poll_sees_counter_growth() {
    assert_eq!(macos_buttons_down(true, false, true), 5);
    let previous = MousePressSnapshot {
        buttons_down: 0,
        left_press_count: 10,
        right_press_count: 2,
        other_press_count: 0,
    };
    let now = MousePressSnapshot { left_press_count: 11, ..previous };
    let p = poll_macos(previous, now);
    assert!(p.saw_new_press);
    assert!(!p.is_pressed);
    assert_eq!(p.snapshot, now);
    let still = poll_macos(previous, previous);
    assert!(!still.saw_new_press);
}

#[test]
fn fallback_platform_reads_nothing() {
    assert_eq!(capture_mouse_press_snapshot(), MousePressSnapshot::default());
    assert_eq!(poll_mouse_press(MousePressSnapshot::default()), MousePressPoll::default());
    assert!(get_window_under_cursor().is_none());
    assert!(list_visible_windows().is_empty());
}

fn candidate(id: u32, pid: i32, owner: &str, name: &str, layer: i64, under: bool) -> WindowCandidate {
    WindowCandidate {
        window_id: id,
        owner_pid: pid,
        owner_name: owner.to_string(),
        window_name: name.to_string(),
        layer,
        under_cursor: under,
    }
}

#[test]
fn picks_frontmost_normal_window_under_cursor() {
    let cands = vec![
        candidate(10, 310, "Overlay", "Tooltip", 25, true),
        candidate(2, 222, "Front", "Front Window", 0, true),
        candidate(1, 111, "Background", "Background Window", 0, true),
    ];
    let info = pick_window_at_cursor(&cands).expect("expected a window");
    assert_eq!(info.title, "Front Window");
    assert_eq!(info.class_name, "Front");
    assert_eq!(info.target_hwnd(), Some(222));
}

#[test]
fn untitled_windows_fall_back_to_owner_or_are_skipped() {
    let cands = vec![
        candidate(1, 5, "  Finder ", "   ", 0, false),
        candidate(2, 6, " ", "", 0, true),
        candidate(3, 7, "App", " Main ", 0, false),
    ];
    assert!(pick_window_at_cursor(&cands).is_none());
    let ws = visible_windows_from(&cands);
    assert_eq!(ws.len(), 2);
    assert_eq!(ws[0].title, "Finder");
    assert_eq!(ws[0].class_name, "Finder");
    assert_eq!(ws[1].title, "Main");
    assert_eq!(ws[1].target_hwnd(), Some(7));
}

struct Bounds {
    x: f64,
    y: f64,
    width: f64,
    height: f64,
}

fn holds(b: &Bounds, px: f64, py: f64) -> bool {
    px >= b.x && px <= b.x + b.width && py >= b.y && py <= b.y + b.height
}

fn placed(
    window_id: u32,
    owner_pid: i32,
    bounds: Bounds,
    owner_name: &str,
    window_name: &str,
    layer: i64,
    cursor: (f64, f64),
) -> WindowCandidate {
    WindowCandidate {
        window_id,
        owner_pid,
        owner_name: owner_name.to_string(),
        window_name: window_name.to_string(),
        layer,
        under_cursor: holds(&bounds, cursor.0, cursor.1),
    }
}

#[test]
fn macos_pick_returns_frontmost_window_containing_cursor() {
    let cursor = (150.0, 150.0);
    let windows = vec![
        placed(
            2,
            222,
            Bounds { x: 100.0, y: 100.0, width: 200.0, height: 200.0 },
            "Front",
            "Front Window",
            0,
            cursor,
        ),
        placed(
            1,
            111,
            Bounds { x: 0.0, y: 0.0, width: 500.0, height: 500.0 },
            "Background",
            "Background Window",
            0,
            cursor,
        ),
    ];

    let info = pick_window_at_cursor(&windows).expect("expected to pick frontmost window");

    assert_eq!(info.title, "Front Window");
    assert_eq!(info.class_name, "Front");
    assert_eq!(info.target_hwnd(), Some(222));
}

#[test]
fn macos_pick_ignores_non_normal_layers() {
    let cursor = (50.0, 50.0);
    let windows = vec![
        placed(
            10,
            310,
            Bounds { x: 0.0, y: 0.0, width: 200.0, height: 200.0 },
            "Overlay",
            "Tooltip",
            25,
            cursor,
        ),
        placed(
            11,
            311,
            Bounds { x: 0.0, y: 0.0, width: 200.0, height: 200.0 },
            "Editor",
            "Document",
            0,
            cursor,
        ),
    ];

    let info = pick_window_at_cursor(&windows)
        .expect("expected to ignore overlay and pick normal window");

    assert_eq!(info.title, "Document");
    assert_eq!(info.class_name, "Editor");
}
