use acq_pipeline::{DriverError, MemoryMap, MemoryController};

#[test]
fn destructive_read_returns_values_once_then_zeros() {
    let mut w = MemoryMap::new_anon(4096).unwrap();
    assert!(w.write(0, 0x1122_3344).is_ok());
    assert!(w.write(4, 0x5566_7788).is_ok());
    assert!(w.write(8, 0xAAAA_AAAA).is_ok());
    assert!(w.write(12, 0xBBBB_BBBB).is_ok());
    let mut ram = MemoryController::new(w);
    let first = ram.read_memory(0, 16).unwrap();
    assert_eq!(first, vec![0x5566_7788_1122_3344u64, 0xBBBB_BBBB_AAAA_AAAAu64]);
    let second = ram.read_memory(0, 16).unwrap();
    assert_eq!(second, vec![0u64, 0u64]);
}

#[test]
fn read_at_an_offset_clears_only_its_strides() {
    let mut w = MemoryMap::new_anon(64).unwrap();
    assert!(w.write(0, 7).is_ok());
    assert!(w.write(8, 9).is_ok());
    let mut ram = MemoryController::new(w);
    let words = ram.read_memory(8, 8).unwrap();
    assert_eq!(words, vec![9u64]);
    // The stride before the offset was not touched.
    let untouched = ram.read_memory(0, 8).unwrap();
    assert_eq!(untouched, vec![7u64]);
}

#[test]
fn zero_length_read_is_empty_and_touches_nothing() {
    let mut w = MemoryMap::new_anon(16).unwrap();
    assert!(w.write(0, 3).is_ok());
    let mut ram = MemoryController::new(w);
    assert_eq!(ram.read_memory(0, 0).unwrap(), Vec::<u64>::new());
    assert_eq!(ram.read_memory(0, 8).unwrap(), vec![3u64]);
}

#[test]
fn partial_tail_length_still_occupies_a_full_stride() {
    // 12 bytes round up to two 8-byte strides, which do not fit in a
    // 12-byte window.
    let w = MemoryMap::new_anon(12).unwrap();
    let mut ram = MemoryController::new(w);
    assert_eq!(ram.read_memory(0, 12), Err(DriverError::OutOfBounds));
    // In a 16-byte window the same length fits and reads both strides.
    let w = MemoryMap::new_anon(16).unwrap();
    let mut ram = MemoryController::new(w);
    assert_eq!(ram.read_memory(0, 12).unwrap().len(), 2);
}

#[test]
fn out_of_bounds_pass_is_rejected_whole() {
    let mut w = MemoryMap::new_anon(16).unwrap();
    assert!(w.write(0, 5).is_ok());
    let mut ram = MemoryController::new(w);
    assert_eq!(ram.read_memory(8, 16), Err(DriverError::OutOfBounds));
    // The rejected pass cleared nothing.
    assert_eq!(ram.read_memory(0, 8).unwrap(), vec![5u64]);
}
