use acq_pipeline::{ConfigController, DriverError, MemoryMap, NotificationHandle};

#[test]
fn trigger_gate_toggles_the_bit() {
    let w = MemoryMap::new_anon(4096).unwrap();
    let mut cfg = ConfigController::new(w, NotificationHandle::new());
    assert!(cfg.trigger_gate().is_ok());
    let mut w = cfg.release();
    assert_eq!(w.read(0x0).unwrap(), 0x1);
    let mut cfg = ConfigController::new(w, NotificationHandle::new());
    assert!(cfg.trigger_gate().is_ok());
    let mut w = cfg.release();
    assert_eq!(w.read(0x0).unwrap(), 0x0);
}

#[test]
fn unmask_and_mask_drive_the_enable_bit() {
    let w = MemoryMap::new_anon(4096).unwrap();
    let mut cfg = ConfigController::new(w, NotificationHandle::new());
    assert!(cfg.unmask_gate().is_ok());
    let mut w = cfg.release();
    assert_eq!(w.read(0x14).unwrap(), 0x1);
    let mut cfg = ConfigController::new(w, NotificationHandle::new());
    assert!(cfg.mask_gate().is_ok());
    let mut w = cfg.release();
    assert_eq!(w.read(0x14).unwrap(), 0x0);
}

#[test]
fn rate_writes_land_on_their_registers() {
    let w = MemoryMap::new_anon(4096).unwrap();
    let mut cfg = ConfigController::new(w, NotificationHandle::new());
    assert!(cfg.cic_rate(64).is_ok());
    assert!(cfg.nco_rate(0x14F8B).is_ok());
    let mut w = cfg.release();
    assert_eq!(w.read(0x8).unwrap(), 64);
    assert_eq!(w.read(0x4).unwrap(), 0x14F8B);
}

#[test]
fn gate_ops_fail_outside_a_small_window() {
    let w = MemoryMap::new_anon(0x10).unwrap();
    let mut cfg = ConfigController::new(w, NotificationHandle::new());
    assert_eq!(cfg.unmask_gate(), Err(DriverError::OutOfBounds));
    assert_eq!(cfg.mask_gate(), Err(DriverError::OutOfBounds));
    assert!(cfg.cic_rate(4).is_ok());
}

#[test]
fn trigger_wait_consumes_one_edge_and_rearms() {
    let w = MemoryMap::new_anon(4096).unwrap();
    let mut cfg = ConfigController::new(w, NotificationHandle::new());
    assert_eq!(
        cfg.wait_for_completion(),
        Err(DriverError::NotificationIoFailure)
    );
    cfg.notify_edge();
    assert!(cfg.wait_for_completion().is_ok());
    assert_eq!(
        cfg.wait_for_completion(),
        Err(DriverError::NotificationIoFailure)
    );
    cfg.notify_edge();
    assert!(cfg.wait_for_completion().is_ok());
}
