use zoom_sdk_linux_rs::TeardownCoordinator;

#[test]
fn a_new_coordinator_has_nothing_set() {
    let c = TeardownCoordinator::new();
    assert!(!c.is_tearing_down());
    assert!(!c.was_active());
}

#[test]
fn teardown_once_started_stays_started() {
    let mut c = TeardownCoordinator::new();
    assert!(!c.mark_teardown_started());
    assert!(c.is_tearing_down());
    c.mark_entered_active_state();
    assert!(c.is_tearing_down());
    c.register_event_loop();
    assert!(c.is_tearing_down());
    assert!(c.mark_teardown_started());
    assert!(c.is_tearing_down());
    for _ in 0..100 {
        assert!(c.is_tearing_down());
    }
}

#[test]
fn active_state_is_independent_of_teardown() {
    let mut c = TeardownCoordinator::new();
    c.mark_entered_active_state();
    assert!(c.was_active());
    assert!(!c.is_tearing_down());
    c.mark_teardown_started();
    assert!(c.was_active());
    assert!(c.is_tearing_down());
}

#[test]
fn a_registered_loop_is_woken() {
    let mut c = TeardownCoordinator::new();
    c.register_event_loop();
    assert!(!c.is_tearing_down());
    assert!(c.mark_teardown_started());
    assert!(c.mark_teardown_started());
}
