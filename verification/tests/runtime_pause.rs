use std::sync::atomic::{AtomicUsize, Ordering};
use verbalix::runtime_pause::{RuntimePause, GRACE_MS};

fn increments(calls: &AtomicUsize) -> impl FnOnce() + '_ {
    || {
        calls.fetch_add(1, Ordering::Relaxed);
    }
}

#[test]
fn pause_blocks_polling_and_ax_observer_callbacks() {
    let mut pause = RuntimePause::default();
    let calls = AtomicUsize::new(0);

    assert!(pause.run_polling(true, increments(&calls)).is_some());
    assert!(pause.run_ax_observer(increments(&calls)).is_some());
    assert!(pause.toggle());
    assert!(pause.run_polling(true, increments(&calls)).is_none());
    assert!(pause.run_ax_observer(increments(&calls)).is_none());

    assert_eq!(calls.load(Ordering::Relaxed), 2);
}

#[test]
fn pause_blocks_global_shortcut_and_clipboard_fallback() {
    let mut pause = RuntimePause::default();
    let calls = AtomicUsize::new(0);

    assert!(pause.run_global_shortcut(increments(&calls)).is_some());
    assert!(pause.run_clipboard_fallback(increments(&calls)).is_some());
    assert!(pause.toggle());
    assert!(pause.run_global_shortcut(increments(&calls)).is_none());
    assert!(pause.run_clipboard_fallback(increments(&calls)).is_none());

    assert_eq!(calls.load(Ordering::Relaxed), 2);
}

#[test]
fn resume_reenables_every_runtime_entry_point() {
    let mut pause = RuntimePause::default();
    assert!(pause.toggle());
    assert!(!pause.toggle());

    assert!(pause.run_polling(true, || ()).is_some());
    assert!(pause.run_ax_observer(|| ()).is_some());
    assert!(pause.run_global_shortcut(|| ()).is_some());
    assert!(pause.run_clipboard_fallback(|| ()).is_some());
}

#[test]
fn polling_stays_disabled_when_automatic_toolbar_is_off() {
    let pause = RuntimePause::default();

    assert!(pause.run_polling(false, || ()).is_none());
}

#[test]
fn in_flight_guard_suppresses_all_detection_entry_points() {
    let clock = 0;
    let mut pause = RuntimePause::default();
    let _guard = pause.begin_action();

    assert!(pause.run_polling_at(clock, true, || ()).is_none());
    assert!(pause.run_ax_observer_at(clock, || ()).is_none());
    assert!(pause.run_mouse_dismiss_at(clock, || ()).is_none());
}

#[test]
fn in_flight_guard_suppresses_during_grace_after_drop() {
    let clock = 1000;
    let mut pause = RuntimePause::default();
    let guard = pause.begin_action();
    pause.end_action_at(guard, clock);

    assert!(pause.is_action_in_flight_at(clock));
    assert!(pause.run_polling_at(clock, true, || ()).is_none());
    assert!(pause.run_ax_observer_at(clock, || ()).is_none());
    assert!(pause.run_mouse_dismiss_at(clock, || ()).is_none());
}

#[test]
fn in_flight_reentrancy_requires_all_guards_dropped_and_grace_expired() {
    let mut clock = 1000;
    let mut pause = RuntimePause::default();
    let g1 = pause.begin_action();
    let g2 = pause.begin_action();
    pause.end_action_at(g1, clock);

    assert!(pause.is_action_in_flight_at(clock));

    pause.end_action_at(g2, clock);

    assert!(pause.is_action_in_flight_at(clock));

    clock = 1000 + GRACE_MS + 1;

    assert!(!pause.is_action_in_flight_at(clock));
    assert!(pause.run_polling_at(clock, true, || ()).is_some());
    assert!(pause.run_ax_observer_at(clock, || ()).is_some());
    assert!(pause.run_mouse_dismiss_at(clock, || ()).is_some());
}

#[test]
fn grace_period_expires_at_deadline_boundary() {
    let mut clock = 500;
    let mut pause = RuntimePause::default();
    let g = pause.begin_action();
    pause.end_action_at(g, clock);

    assert!(pause.is_action_in_flight_at(clock));

    clock = 500 + GRACE_MS - 1;
    assert!(pause.is_action_in_flight_at(clock));

    clock = 500 + GRACE_MS;
    assert!(!pause.is_action_in_flight_at(clock));

    clock = 500 + GRACE_MS + 1;
    assert!(!pause.is_action_in_flight_at(clock));
}

#[test]
fn mouse_dismiss_ignores_the_pause() {
    let mut pause = RuntimePause::new();
    pause.toggle();
    assert_eq!(pause.run_mouse_dismiss_at(0, || 7), Some(7));
}

#[test]
fn ending_an_action_by_the_system_clock_keeps_detection_suppressed() {
    let mut pause = RuntimePause::new();
    let g = pause.begin_action();
    pause.end_action(g);
    assert!(pause.is_action_in_flight());
}
