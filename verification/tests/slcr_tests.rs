use acq_pipeline::{DriverError, MemoryMap, SlcrController};

#[test]
fn initialize_unlocks_and_reprograms_the_clock_register() {
    let mut w = MemoryMap::new_anon(4096).unwrap();
    assert!(w.write(368, 0xFFFF_FFFF).is_ok());
    let mut slcr = SlcrController::new(w);
    assert!(slcr.initialize().is_ok());
    let mut w = slcr.release();
    assert_eq!(w.read(0x8).unwrap(), 0xDF0D);
    let expected = (0xFFFF_FFFFu32 & !0x03F0_3F30u32) | 0x0010_0700u32;
    assert_eq!(w.read(368).unwrap(), expected);
}

#[test]
fn initialize_from_zero_sets_exactly_the_pattern() {
    let w = MemoryMap::new_anon(4096).unwrap();
    let mut slcr = SlcrController::new(w);
    assert!(slcr.initialize().is_ok());
    let mut w = slcr.release();
    assert_eq!(w.read(368).unwrap(), 0x0010_0700);
}

#[test]
fn initialize_is_rejected_whole_on_a_short_window() {
    let w = MemoryMap::new_anon(256).unwrap();
    let mut slcr = SlcrController::new(w);
    assert_eq!(slcr.initialize(), Err(DriverError::OutOfBounds));
    let mut w = slcr.release();
    // The rejected call did not even write the unlock key.
    assert_eq!(w.read(0x8).unwrap(), 0);
}
