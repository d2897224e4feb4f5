use auto_keypress::key_sender::VirtualKey;
use auto_keypress::scheduler::{next_sleep_nanos, KeyTask, SendStats, SLEEP_STEP_NANOS};

#[test]
fn counts_presses_per_task() {
    let mut s = SendStats::default();
    assert_eq!(s.count(3), 0);
    s.record_send(3);
    s.record_send(3);
    s.record_send(9);
    assert_eq!(s.count(3), 2);
    assert_eq!(s.count(9), 1);
    assert_eq!(s.count(1), 0);
    s.clear();
    assert_eq!(s.count(3), 0);
    assert!(s.counts.is_empty());
}

#[test]
fn sleeps_in_steps_until_the_interval_is_used() {
    let ms = 1_000_000u64;
    let interval = 120 * ms;
    let elapsed = 5 * ms;
    let mut slept = 0u64;
    let mut steps = Vec::new();
    while let Some(step) = next_sleep_nanos(interval, elapsed, slept) {
        steps.push(step);
        slept += step;
    }
    assert_eq!(steps, vec![SLEEP_STEP_NANOS, SLEEP_STEP_NANOS, 15 * ms]);
    assert_eq!(slept, interval - elapsed);
    assert_eq!(next_sleep_nanos(interval, interval + 1, 0), None);
}

#[test]
fn key_task_is_plain_data() {
    let t = KeyTask { id: 4, vk: VirtualKey(0x20), interval_ms: 300 };
    let u = t;
    assert_eq!(t, u);
}
