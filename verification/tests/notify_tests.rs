use acq_pipeline::{DriverError, NotificationHandle};

#[test]
fn wait_without_edge_does_not_complete() {
    let mut h = NotificationHandle::new();
    assert_eq!(h.wait(), Err(DriverError::NotificationIoFailure));
}

#[test]
fn edge_then_wait_completes_once() {
    let mut h = NotificationHandle::new();
    h.record_edge();
    assert_eq!(h.wait(), Ok(1));
}

#[test]
fn rearm_must_happen_once_per_consumed_edge() {
    let mut h = NotificationHandle::new();
    h.record_edge();
    assert!(h.wait().is_ok());
    h.rearm();
    // Re-armed, but no new edge: the next wait must not complete.
    assert_eq!(h.wait(), Err(DriverError::NotificationIoFailure));
    // A new edge after the re-arm completes exactly one more wait.
    h.record_edge();
    assert_eq!(h.wait(), Ok(2));
    h.rearm();
    assert_eq!(h.wait(), Err(DriverError::NotificationIoFailure));
}

#[test]
fn consumed_handle_never_rearmed_hangs_forever() {
    let mut h = NotificationHandle::new();
    h.record_edge();
    assert!(h.wait().is_ok());
    // No re-arm: even a fresh hardware edge can never satisfy a wait.
    h.record_edge();
    assert_eq!(h.wait(), Err(DriverError::NotificationIoFailure));
    h.record_edge();
    assert_eq!(h.wait(), Err(DriverError::NotificationIoFailure));
}
