use acq_pipeline::{DmaController, DriverError, MemoryMap, NotificationHandle};

#[test]
fn soft_reset_leaves_reset_register_cleared() {
    let mut w = MemoryMap::new_anon(4096).unwrap();
    // Simulate a stale asserted reset bit left over in the register.
    assert!(w.write(0x0, 0x1).is_ok());
    let mut dma = DmaController::new(w);
    assert!(dma.soft_reset().is_ok());
    let mut w = dma.release();
    assert_eq!(w.read(0x0).unwrap(), 0x0);
}

#[test]
fn soft_reset_out_of_bounds_on_empty_window() {
    let w = MemoryMap::new_anon(0).unwrap();
    let mut dma = DmaController::new(w);
    assert_eq!(dma.soft_reset(), Err(DriverError::OutOfBounds));
}

#[test]
fn configuration_writes_land_on_their_registers() {
    let w = MemoryMap::new_anon(4096).unwrap();
    let mut dma = DmaController::new(w);
    assert!(dma.configure_sampling(0x200).is_ok());
    assert!(dma.configure_buffer_count(8).is_ok());
    assert!(dma.configure_buffer_address(0, 0x1000_0000).is_ok());
    assert!(dma.configure_buffer_address(7, 0x10E0_0000).is_ok());
    let mut w = dma.release();
    assert_eq!(w.read(0x14).unwrap(), 0x200);
    assert_eq!(w.read(0x18).unwrap(), 8);
    assert_eq!(w.read(0x20).unwrap(), 0x1000_0000);
    assert_eq!(w.read(0x3C).unwrap(), 0x10E0_0000);
}

#[test]
fn buffer_address_bounds_follow_the_index() {
    // A window of 0x28 bytes holds address registers for indices 0 and 1
    // (at 0x20 and 0x24) and nothing beyond.
    let w = MemoryMap::new_anon(0x28).unwrap();
    let mut dma = DmaController::new(w);
    assert!(dma.configure_buffer_address(0, 1).is_ok());
    assert!(dma.configure_buffer_address(1, 2).is_ok());
    assert_eq!(dma.configure_buffer_address(2, 3), Err(DriverError::OutOfBounds));
    assert_eq!(
        dma.configure_buffer_address(usize::MAX, 3),
        Err(DriverError::OutOfBounds)
    );
}

#[test]
fn poll_wait_completes_exactly_when_counter_moved() {
    // The IRQ counter already differs from the fresh snapshot of 0: one
    // poll observes the difference and the wait completes.
    let mut w = MemoryMap::new_anon(4096).unwrap();
    assert!(w.write(0x1C, 5).is_ok());
    let mut dma = DmaController::new(w);
    assert!(dma.wait_for_completion().is_ok());
    // After snapshotting the current counter value, a wait cannot complete
    // until the register moves again.
    assert!(dma.update_irq_count().is_ok());
    assert_eq!(
        dma.wait_for_completion(),
        Err(DriverError::NotificationIoFailure)
    );
}

#[test]
fn poll_wait_needs_the_counter_register() {
    let w = MemoryMap::new_anon(0x10).unwrap();
    let mut dma = DmaController::new(w);
    assert_eq!(dma.wait_for_completion(), Err(DriverError::OutOfBounds));
    assert_eq!(dma.update_irq_count(), Err(DriverError::OutOfBounds));
}

#[test]
fn notified_wait_consumes_one_edge_and_rearms() {
    let w = MemoryMap::new_anon(4096).unwrap();
    let mut dma = DmaController::new(w);
    dma.configure_interrupt_file(NotificationHandle::new());
    assert_eq!(
        dma.wait_for_completion(),
        Err(DriverError::NotificationIoFailure)
    );
    dma.notify_edge();
    assert!(dma.wait_for_completion().is_ok());
    // The wait re-armed the handle, but no new edge arrived: a second wait
    // must not complete.
    assert_eq!(
        dma.wait_for_completion(),
        Err(DriverError::NotificationIoFailure)
    );
    dma.notify_edge();
    assert!(dma.wait_for_completion().is_ok());
}

#[test]
fn read_status_reports_then_clears_the_flags() {
    let mut w = MemoryMap::new_anon(4096).unwrap();
    assert!(w.write(0x4, 0b101).is_ok());
    assert!(w.write(0x8, 0x11).is_ok());
    assert!(w.write(0x20, 0x77).is_ok());
    let mut dma = DmaController::new(w);
    let st = dma.read_status().unwrap();
    assert_eq!(st.flags, 0b101);
    assert_eq!(st.diagnostics.len(), 7);
    assert_eq!(st.diagnostics[0], 0x11);
    assert_eq!(st.diagnostics[6], 0x77);
    let st2 = dma.read_status().unwrap();
    assert_eq!(st2.flags, 0);
}

#[test]
fn read_status_needs_the_status_range() {
    let w = MemoryMap::new_anon(0x20).unwrap();
    let mut dma = DmaController::new(w);
    assert_eq!(dma.read_status().unwrap_err(), DriverError::OutOfBounds);
}
