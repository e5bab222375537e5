use acq_pipeline::sequence::{arm_sequence, collect_results, configure_buffers};
use acq_pipeline::{
    AcqController, ConfigController, DmaController, DriverError, MemoryController, MemoryMap,
    NotificationHandle, SlcrController,
};

#[test]
fn configure_buffers_programs_count_and_contiguous_addresses() {
    let w = MemoryMap::new_anon(4096).unwrap();
    let mut dma = DmaController::new(w);
    let addresses = vec![0x1000_0000u32, 0x1020_0000, 0x1040_0000];
    assert!(configure_buffers(&mut dma, &addresses).is_ok());
    let mut w = dma.release();
    assert_eq!(w.read(0x18).unwrap(), 3);
    assert_eq!(w.read(0x20).unwrap(), 0x1000_0000);
    assert_eq!(w.read(0x24).unwrap(), 0x1020_0000);
    assert_eq!(w.read(0x28).unwrap(), 0x1040_0000);
    // The next address register was never programmed.
    assert_eq!(w.read(0x2C).unwrap(), 0);
}

#[test]
fn configure_buffers_rejects_a_set_that_does_not_fit() {
    let w = MemoryMap::new_anon(0x28).unwrap();
    let mut dma = DmaController::new(w);
    // Two descriptors fit a 0x28-byte window; three do not.
    assert!(configure_buffers(&mut dma, &vec![1u32, 2]).is_ok());
    assert_eq!(
        configure_buffers(&mut dma, &vec![1u32, 2, 3]),
        Err(DriverError::OutOfBounds)
    );
}

#[test]
fn arm_sequence_programs_every_block_and_opens_the_gate() {
    let slcr_w = MemoryMap::new_anon(4096).unwrap();
    let cfg_w = MemoryMap::new_anon(4096).unwrap();
    let acq_w = MemoryMap::new_anon(4096).unwrap();
    let dma_w = MemoryMap::new_anon(4096).unwrap();
    let mut slcr = SlcrController::new(slcr_w);
    let mut cfg = ConfigController::new(cfg_w, NotificationHandle::new());
    let mut acq = AcqController::new(acq_w);
    let mut dma = DmaController::new(dma_w);
    let addresses: Vec<u32> = (0..8u32).map(|i| 0x1000_0000 + i * 0x20_0000).collect();
    assert!(arm_sequence(
        &mut slcr,
        &mut cfg,
        &mut acq,
        &mut dma,
        64,
        0x14F8B,
        [500, 500, 500, 500],
        [100, 100, 100, 100],
        &addresses,
    )
    .is_ok());
    let mut cfg_w = cfg.release();
    assert_eq!(cfg_w.read(0x8).unwrap(), 64);
    assert_eq!(cfg_w.read(0x4).unwrap(), 0x14F8B);
    assert_eq!(cfg_w.read(0x14).unwrap(), 1);
    let mut acq_w = acq.release();
    for k in 0..4usize {
        assert_eq!(acq_w.read(0x4 + 8 * k).unwrap(), 500);
        assert_eq!(acq_w.read(8 * k).unwrap(), 100);
    }
    assert_eq!(acq_w.read(0x20).unwrap(), 0);
    let mut dma_w = dma.release();
    assert_eq!(dma_w.read(0x0).unwrap(), 0);
    assert_eq!(dma_w.read(0x18).unwrap(), 8);
    for i in 0..8usize {
        assert_eq!(
            dma_w.read(0x20 + 4 * i).unwrap(),
            0x1000_0000 + (i as u32) * 0x20_0000
        );
    }
    let mut slcr_w = slcr.release();
    assert_eq!(slcr_w.read(0x8).unwrap(), 0xDF0D);
    assert_eq!(slcr_w.read(368).unwrap(), 0x0010_0700);
}

#[test]
fn arm_sequence_rejects_a_short_clock_window() {
    let slcr_w = MemoryMap::new_anon(256).unwrap();
    let cfg_w = MemoryMap::new_anon(4096).unwrap();
    let acq_w = MemoryMap::new_anon(4096).unwrap();
    let dma_w = MemoryMap::new_anon(4096).unwrap();
    let mut slcr = SlcrController::new(slcr_w);
    let mut cfg = ConfigController::new(cfg_w, NotificationHandle::new());
    let mut acq = AcqController::new(acq_w);
    let mut dma = DmaController::new(dma_w);
    assert_eq!(
        arm_sequence(
            &mut slcr,
            &mut cfg,
            &mut acq,
            &mut dma,
            64,
            0x14F8B,
            [500, 500, 500, 500],
            [100, 100, 100, 100],
            &vec![0x1000_0000u32],
        ),
        Err(DriverError::OutOfBounds)
    );
}

#[test]
fn single_buffer_transfer_reports_and_clears_completion() {
    // One buffer at a fixed address: configure, trigger once, and let the
    // simulated hardware mark buffer 0 written and bump the IRQ counter.
    let mut dma_w = MemoryMap::new_anon(4096).unwrap();
    assert!(dma_w.write(0x4, 0x1).is_ok());
    assert!(dma_w.write(0x1C, 1).is_ok());
    let cfg_w = MemoryMap::new_anon(4096).unwrap();
    let mut dma = DmaController::new(dma_w);
    let mut cfg = ConfigController::new(cfg_w, NotificationHandle::new());
    assert!(dma.configure_sampling(0x200).is_ok());
    assert!(configure_buffers(&mut dma, &vec![0x1000_0000u32]).is_ok());
    assert!(cfg.trigger_gate().is_ok());
    // Poll-mode completion: the counter moved away from the snapshot of 0.
    assert!(dma.wait_for_completion().is_ok());
    let st = dma.read_status().unwrap();
    assert_eq!(st.flags & 0x1, 0x1);
    // The readout cleared the flags: a second readout sees none set.
    let st2 = dma.read_status().unwrap();
    assert_eq!(st2.flags, 0);
}

#[test]
fn full_acquisition_round() {
    // The capture protocol end to end: arm, observe trigger start, four
    // buffer completions, trigger stop, mask the capture gate, read everything out.
    let slcr_w = MemoryMap::new_anon(4096).unwrap();
    let cfg_w = MemoryMap::new_anon(4096).unwrap();
    let acq_w = MemoryMap::new_anon(4096).unwrap();
    let dma_w = MemoryMap::new_anon(4096).unwrap();
    let mut ram_w = MemoryMap::new_anon(4096).unwrap();
    assert!(ram_w.write(0, 0x1234_5678).is_ok());
    assert!(ram_w.write(4, 0x9ABC_DEF0).is_ok());
    let mut slcr = SlcrController::new(slcr_w);
    let mut cfg = ConfigController::new(cfg_w, NotificationHandle::new());
    let mut acq = AcqController::new(acq_w);
    let mut dma = DmaController::new(dma_w);
    let mut ram = MemoryController::new(ram_w);
    dma.configure_interrupt_file(NotificationHandle::new());
    let addresses: Vec<u32> = (0..4u32).map(|i| 0x1000_0000 + i * 0x20_0000).collect();
    assert!(arm_sequence(
        &mut slcr,
        &mut cfg,
        &mut acq,
        &mut dma,
        64,
        0x14F8B,
        [500, 500, 500, 500],
        [100, 100, 100, 100],
        &addresses,
    )
    .is_ok());
    // Trigger start.
    cfg.notify_edge();
    assert!(cfg.wait_for_completion().is_ok());
    // Four buffer completions.
    for _ in 0..4 {
        dma.notify_edge();
        assert!(dma.wait_for_completion().is_ok());
    }
    // Trigger stop, then the capture gate masks without requiring further waits.
    cfg.notify_edge();
    assert!(cfg.wait_for_completion().is_ok());
    assert!(cfg.mask_gate().is_ok());
    let mut cfg_w = cfg.release();
    assert_eq!(cfg_w.read(0x14).unwrap(), 0);
    // Read everything out; the captured region is cleared behind the read.
    let report = collect_results(&mut dma, &mut acq, &mut ram, 0, 16).unwrap();
    assert_eq!(report.data[0], 0x9ABC_DEF0_1234_5678u64);
    assert_eq!(report.data[1], 0);
    let again = ram.read_memory(0, 16).unwrap();
    assert_eq!(again, vec![0u64, 0u64]);
}
