use spawn_scene::diagnostics::{DiagnosticRecorder, SYSTEM_ITERATION_COUNT, TICK_MARK};

#[test]
fn iteration_metric_is_registered_empty() {
    let d = DiagnosticRecorder::iteration_count(10);
    assert_eq!(d.id(), SYSTEM_ITERATION_COUNT);
    assert_eq!(d.name(), "system_iteration_count");
    assert_eq!(d.max_history(), 10);
    assert!(d.history().is_empty());
}

#[test]
fn history_keeps_most_recent_in_order() {
    let mut d = DiagnosticRecorder::new(7, "load".to_string(), 3);
    for m in 1..=5u64 {
        d.add_measurement(m);
    }
    assert_eq!(d.history(), vec![3, 4, 5]);
    d.add_measurement(6);
    assert_eq!(d.history(), vec![4, 5, 6]);
}

#[test]
fn history_grows_until_full() {
    let mut d = DiagnosticRecorder::iteration_count(10);
    for k in 0..10usize {
        assert_eq!(d.history().len(), k);
        d.record_tick();
    }
    assert_eq!(d.history(), vec![TICK_MARK; 10]);
    d.record_tick();
    assert_eq!(d.history().len(), 10);
}

#[test]
fn zero_capacity_history_stays_empty() {
    let mut d = DiagnosticRecorder::new(1, "none".to_string(), 0);
    d.add_measurement(4);
    assert!(d.history().is_empty());
}
