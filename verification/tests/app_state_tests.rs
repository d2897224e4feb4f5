use auto_keypress::app_state::{
    advance_pick_frame, can_start, mac_window_level, start_block_reason, StartBlockReason,
    NS_NORMAL_WINDOW_LEVEL, NS_POP_UP_WINDOW_LEVEL,
};

#[test]
fn start_requires_idle_target_and_permission() {
    assert!(can_start(false, true, true));
    assert!(!can_start(true, true, true));
    assert!(!can_start(false, false, true));
    assert!(!can_start(false, true, false));
}

#[test]
fn start_block_reason_prefers_permission_then_target() {
    assert_eq!(
        start_block_reason(false, true, false),
        Some(StartBlockReason::MissingPermission)
    );
    assert_eq!(
        start_block_reason(false, false, true),
        Some(StartBlockReason::MissingTarget)
    );
    assert_eq!(
        start_block_reason(false, false, false),
        Some(StartBlockReason::MissingPermission)
    );
    assert_eq!(start_block_reason(true, false, false), None);
    assert_eq!(start_block_reason(false, true, true), None);
}

#[test]
fn pick_does_not_confirm_while_waiting_for_first_release() {
    let result = advance_pick_frame(Some(&"old"), Some("new"), false, true, false, |a, b| a == b);

    assert_eq!(result.target, Some("new"));
    assert!(!result.ready_to_confirm);
    assert!(!result.stop_picking);
    assert!(result.changed);
}

#[test]
fn pick_arms_after_mouse_is_released_once() {
    let result = advance_pick_frame(
        Some(&"current"),
        Some("hovered"),
        false,
        false,
        false,
        |a, b| a == b,
    );

    assert_eq!(result.target, Some("hovered"));
    assert!(result.ready_to_confirm);
    assert!(!result.stop_picking);
    assert!(result.changed);
}

#[test]
fn pick_stops_immediately_when_mouse_is_pressed_after_arming() {
    let result = advance_pick_frame(
        Some(&"current"),
        Some("hovered"),
        true,
        true,
        false,
        |a, b| a == b,
    );

    assert_eq!(result.target, Some("hovered"));
    assert!(result.ready_to_confirm);
    assert!(result.stop_picking);
    assert!(result.changed);
}

#[test]
fn pick_keeps_last_target_when_pressing_without_hovered_window() {
    let result = advance_pick_frame(Some(&"current"), None::<&str>, true, true, false, |a, b| {
        a == b
    });

    assert_eq!(result.target, Some("current"));
    assert!(result.ready_to_confirm);
    assert!(result.stop_picking);
    assert!(!result.changed);
}

#[test]
fn pick_stops_when_click_happens_between_polls() {
    let result = advance_pick_frame(
        Some(&"current"),
        Some("hovered"),
        true,
        false,
        true,
        |a, b| a == b,
    );

    assert_eq!(result.target, Some("hovered"));
    assert!(result.ready_to_confirm);
    assert!(result.stop_picking);
    assert!(result.changed);
}

#[test]
fn macos_always_on_top_uses_expected_window_levels() {
    assert_eq!(mac_window_level(false), NS_NORMAL_WINDOW_LEVEL);
    assert_eq!(mac_window_level(true), NS_POP_UP_WINDOW_LEVEL);
}
