use acq_pipeline::{DriverError, MemoryMap};

#[test]
fn round_trip_write_read() {
    let mut w = MemoryMap::new_anon(64).unwrap();
    assert!(w.write(0, 0x12345678).is_ok());
    assert_eq!(w.read(0).unwrap(), 0x12345678);
    assert!(w.write(4, 0).is_ok());
    assert_eq!(w.read(4).unwrap(), 0);
    assert!(w.write(8, u32::MAX).is_ok());
    assert_eq!(w.read(8).unwrap(), u32::MAX);
    assert!(w.write(60, 0xDEADBEEF).is_ok());
    assert_eq!(w.read(60).unwrap(), 0xDEADBEEF);
}

#[test]
fn round_trip_survives_other_writes() {
    let mut w = MemoryMap::new_anon(32).unwrap();
    assert!(w.write(0, 0xAAAA5555).is_ok());
    assert!(w.write(8, 0x0F0F0F0F).is_ok());
    assert_eq!(w.read(0).unwrap(), 0xAAAA5555);
    assert_eq!(w.read(8).unwrap(), 0x0F0F0F0F);
}

#[test]
fn bounds_at_window_edge() {
    let mut w = MemoryMap::new_anon(64).unwrap();
    assert!(w.write(60, 7).is_ok());
    assert_eq!(w.write(61, 7), Err(DriverError::OutOfBounds));
    assert_eq!(w.write(64, 7), Err(DriverError::OutOfBounds));
    assert_eq!(w.write(usize::MAX, 7), Err(DriverError::OutOfBounds));
}

#[test]
fn read_is_bounds_checked_like_write() {
    let mut w = MemoryMap::new_anon(64).unwrap();
    assert!(w.read(60).is_ok());
    assert_eq!(w.read(61), Err(DriverError::OutOfBounds));
    assert_eq!(w.read(64), Err(DriverError::OutOfBounds));
}

#[test]
fn anonymous_window_starts_zeroed() {
    let mut w = MemoryMap::new_anon(4096).unwrap();
    assert_eq!(w.size(), 4096);
    assert_eq!(w.read(0).unwrap(), 0);
    assert_eq!(w.read(2048).unwrap(), 0);
    assert_eq!(w.read(4092).unwrap(), 0);
}

#[test]
fn impossible_mapping_reports_mapping_failure() {
    // No mapping of this length can exist; the failure is reported, not
    // panicked on.
    let r = MemoryMap::new_anon(usize::MAX);
    assert_eq!(r.err().unwrap(), DriverError::MappingFailure);
}

#[test]
fn unaligned_offsets_use_little_endian_bytes() {
    let mut w = MemoryMap::new_anon(16).unwrap();
    assert!(w.write(1, 0x11223344).is_ok());
    assert_eq!(w.read(1).unwrap(), 0x11223344);
    // The overlapping word one byte down sees the value's low bytes shifted
    // up by one byte position.
    assert_eq!(w.read(0).unwrap(), 0x22334400);
}

#[test]
fn overlapping_write_mixes_bytes_exactly() {
    let mut w = MemoryMap::new_anon(16).unwrap();
    assert!(w.write(0, 0xAABBCCDD).is_ok());
    assert!(w.write(2, 0x11223344).is_ok());
    // Bytes are now DD CC 44 33 22 11, so the word at 0 is 0x3344CCDD.
    assert_eq!(w.read(0).unwrap(), 0x3344CCDD);
    assert_eq!(w.read(2).unwrap(), 0x11223344);
}
