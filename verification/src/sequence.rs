use crate::acq::AcqController;
use crate::dma::{index_range, DmaController, DmaStatus, DMA_CONFIGURE_BUFFER_COUNT_OFFSET};
use crate::errors::DriverError;
use crate::gate::ConfigController;
use crate::memory::{read_in_bounds, read_words, stride_count, zeroed_range, MemoryController};
use crate::slcr::SlcrController;
use crate::words::{lemma_store_load_disjoint, load_word, store_word};
use vstd::prelude::*;

verus! {

/// A full buffer-descriptor set of `n` descriptors fits the engine's
/// register window: the buffer-count register and the `n` address registers
/// are all addressable.
pub open spec fn buffers_fit(n: int, window_len: int) -> bool {
    &&& 0x1C <= window_len
    &&& (n == 0 || 0x20 + 4 * n <= window_len)
}

/// Programs a complete buffer-descriptor set: the buffer-count register
/// receives the descriptor count, then every buffer index from 0 upwards
/// receives its physical base address, contiguously and with no gaps.
///
/// On success the engine's programmed-index set is exactly
/// `{0, ..., addresses.len() - 1}`; a rejected set (one that does not fit
/// the window) leaves the engine untouched.
pub fn configure_buffers(dma: &mut DmaController, addresses: &Vec<u32>) -> (r: Result<
    (),
    DriverError,
>)
    requires
        old(dma).wf(),
        addresses@.len() <= 0xFFFF_FFFF,
    ensures
        final(dma).wf(),
        final(dma).irq_snapshot() == old(dma).irq_snapshot(),
        final(dma).notifier_spec() == old(dma).notifier_spec(),
        r is Ok <==> buffers_fit(addresses@.len() as int, old(dma).window().len() as int),
        r is Ok ==> final(dma).buffers_configured(),
        r is Ok ==> final(dma).count_spec() == Some(addresses@.len() as u32),
        r is Ok ==> load_word(final(dma).window(), DMA_CONFIGURE_BUFFER_COUNT_OFFSET as int)
            == addresses@.len() as u32,
        r is Ok ==> forall|j: int|
            0 <= j < addresses@.len() ==> load_word(final(dma).window(), 0x20 + 4 * j)
                == addresses@[j],
        r is Ok ==> forall|b: int|
            0 <= b < old(dma).window().len() && !(0x18 <= b < 0x1C) && !(0x20 <= b < 0x20 + 4
                * addresses@.len()) ==> final(dma).window()[b] == old(dma).window()[b],
        r is Err ==> *final(dma) == *old(dma) && r->Err_0 == DriverError::OutOfBounds,
{
    let n = addresses.len();
    let len = dma.window_size();
    if len < 0x1C || (n > 0 && (len < 0x24 || n - 1 > (len - 0x24) / 4)) {
        return Err(DriverError::OutOfBounds);
    }
    assert(n > 0 ==> 0x20 + 4 * n <= len);
    match dma.configure_buffer_count(n as u32) {
        Ok(()) => (),
        Err(e) => {
            return Err(e);
        },
    }
    let mut i: usize = 0;
    while i < n
        invariant
            dma.wf(),
            n == addresses@.len(),
            n <= 0xFFFF_FFFF,
            buffers_fit(n as int, old(dma).window().len() as int),
            dma.window().len() == old(dma).window().len(),
            dma.irq_snapshot() == old(dma).irq_snapshot(),
            dma.notifier_spec() == old(dma).notifier_spec(),
            dma.count_spec() == Some(n as u32),
            i <= n,
            dma.programmed_spec() == index_range(i as int),
            load_word(dma.window(), DMA_CONFIGURE_BUFFER_COUNT_OFFSET as int) == n as u32,
            forall|j: int|
                0 <= j < i ==> load_word(dma.window(), 0x20 + 4 * j) == addresses@[j],
            forall|b: int|
                0 <= b < old(dma).window().len() && !(0x18 <= b < 0x1C) && !(0x20 <= b < 0x20 + 4
                    * i) ==> dma.window()[b] == old(dma).window()[b],
        decreases n - i,
    {
        let w_prev = Ghost(dma.window());
        match dma.configure_buffer_address(i, addresses[i]) {
            Ok(()) => (),
            Err(e) => {
                return Err(e);
            },
        }
        proof {
            assert(index_range(i as int).insert(i as int) =~= index_range(i as int + 1));
            lemma_store_load_disjoint(
                w_prev@,
                0x20 + 4 * (i as int),
                addresses@[i as int],
                DMA_CONFIGURE_BUFFER_COUNT_OFFSET as int,
            );
            assert forall|j: int| 0 <= j < i implies load_word(dma.window(), 0x20 + 4 * j)
                == addresses@[j] by {
                lemma_store_load_disjoint(
                    w_prev@,
                    0x20 + 4 * (i as int),
                    addresses@[i as int],
                    0x20 + 4 * j,
                );
            }
        }
        i = i + 1;
    }
    proof {
        assert(index_range(n as int) =~= index_range(addresses@.len() as int));
    }
    Ok(())
}

/// The arming sequence fits its four register windows: the clock block, the
/// gate/front-end registers, the acquisition-trigger registers, and the DMA
/// engine's reset, count and address registers.
pub open spec fn arm_fits(
    slcr_len: int,
    cfg_len: int,
    acq_len: int,
    dma_len: int,
    n: int,
) -> bool {
    &&& 372 <= slcr_len
    &&& 0x18 <= cfg_len
    &&& 0x24 <= acq_len
    &&& buffers_fit(n, dma_len)
}

/// Arms one capture, in the strict order the hardware requires: clock
/// initialization, front-end rates, acquisition-trigger reset and window
/// envelope, DMA reset and buffer descriptors, and only then the capture gate
/// unmask. Configuration must land before the capture gate opens, or the device
/// captures into unconfigured destinations; this function makes that
/// ordering a fact of its body rather than a caller obligation.
///
/// After a successful arm, the front-end rate registers hold `cic` and
/// `nco`, the four (delay, width) pairs hold `delays` and `widths`, both
/// soft-reset pulses have settled to the cleared state, the descriptor set
/// is complete, and the capture gate is unmasked. A sequence that does not fit its
/// windows fails with `OutOfBounds`; any failure aborts the whole run.
#[verifier::rlimit(100)]
#[verifier::spinoff_prover]
pub fn arm_sequence(
    slcr: &mut SlcrController,
    cfg: &mut ConfigController,
    acq: &mut AcqController,
    dma: &mut DmaController,
    cic: u16,
    nco: u32,
    delays: [u32; 4],
    widths: [u32; 4],
    addresses: &Vec<u32>,
) -> (r: Result<(), DriverError>)
    requires
        old(slcr).wf(),
        old(cfg).wf(),
        old(acq).wf(),
        old(dma).wf(),
        addresses@.len() <= 0xFFFF_FFFF,
    ensures
        final(slcr).wf(),
        final(cfg).wf(),
        final(acq).wf(),
        final(dma).wf(),
        r is Ok <==> arm_fits(
            old(slcr).window().len() as int,
            old(cfg).window().len() as int,
            old(acq).window().len() as int,
            old(dma).window().len() as int,
            addresses@.len() as int,
        ),
        r is Ok ==> load_word(final(slcr).window(), 368) == ((load_word(old(slcr).window(), 368)
            & !0x03F03F30u32) | 0x00100700u32),
        r is Ok ==> load_word(final(cfg).window(), 0x8) == cic as u32,
        r is Ok ==> load_word(final(cfg).window(), 0x4) == nco,
        r is Ok ==> final(cfg).gate_unmasked(),
        r is Ok ==> load_word(final(acq).window(), 0x20) == 0,
        r is Ok ==> forall|k: int|
            0 <= k < 4 ==> load_word(final(acq).window(), 0x4 + 8 * k) == delays[k],
        r is Ok ==> forall|k: int|
            0 <= k < 4 ==> load_word(final(acq).window(), 8 * k) == widths[k],
        r is Ok ==> load_word(final(dma).window(), 0x0) == 0,
        r is Ok ==> final(dma).buffers_configured() && final(dma).count_spec() == Some(
            addresses@.len() as u32,
        ),
        r is Ok ==> forall|j: int|
            0 <= j < addresses@.len() ==> load_word(final(dma).window(), 0x20 + 4 * j)
                == addresses@[j],
        r is Err ==> r->Err_0 == DriverError::OutOfBounds,
{
    match slcr.initialize() {
        Ok(()) => (),
        Err(e) => {
            return Err(e);
        },
    }
    match cfg.cic_rate(cic) {
        Ok(()) => (),
        Err(e) => {
            return Err(e);
        },
    }
    match cfg.nco_rate(nco) {
        Ok(()) => (),
        Err(e) => {
            return Err(e);
        },
    }
    match acq.soft_reset() {
        Ok(()) => (),
        Err(e) => {
            return Err(e);
        },
    }
    let a_reset = Ghost(acq.window());
    match acq.configure_ds(delays) {
        Ok(()) => (),
        Err(e) => {
            return Err(e);
        },
    }
    let a_ds = Ghost(acq.window());
    match acq.configure_ws(widths) {
        Ok(()) => (),
        Err(e) => {
            return Err(e);
        },
    }
    match dma.soft_reset() {
        Ok(()) => (),
        Err(e) => {
            return Err(e);
        },
    }
    let d_reset = Ghost(dma.window());
    match configure_buffers(dma, addresses) {
        Ok(()) => (),
        Err(e) => {
            return Err(e);
        },
    }
    proof {
        assert(dma.window()[0] == d_reset@[0]);
        assert(dma.window()[1] == d_reset@[1]);
        assert(dma.window()[2] == d_reset@[2]);
        assert(dma.window()[3] == d_reset@[3]);
        assert(load_word(dma.window(), 0x0) == load_word(d_reset@, 0x0));
    }
    let c_rates = Ghost(cfg.window());
    match cfg.unmask_gate() {
        Ok(()) => (),
        Err(e) => {
            return Err(e);
        },
    }
    proof {
        lemma_store_load_disjoint(c_rates@, 0x14, 0x1, 0x8);
        lemma_store_load_disjoint(c_rates@, 0x14, 0x1, 0x4);
        assert(load_word(acq.window(), 0x20) == load_word(a_ds@, 0x20));
        assert(load_word(a_ds@, 0x20) == load_word(a_reset@, 0x20));
        assert forall|k: int| 0 <= k < 4 implies load_word(acq.window(), 0x4 + 8 * k)
            == delays[k] by {
            assert(load_word(acq.window(), 0x4) == load_word(a_ds@, 0x4));
            assert(load_word(acq.window(), 0xC) == load_word(a_ds@, 0xC));
            assert(load_word(acq.window(), 0x14) == load_word(a_ds@, 0x14));
            assert(load_word(acq.window(), 0x1C) == load_word(a_ds@, 0x1C));
        }
    }
    Ok(())
}

/// Everything one capture returns: the DMA engine's buffer-written flags
/// and diagnostic words, the acquisition trigger's status word, and the
/// captured 64-bit data words (whose region the readout clears).
#[derive(Debug)]
pub struct CaptureReport {
    pub dma_status: DmaStatus,
    pub acq_status: u32,
    pub data: Vec<u64>,
}

/// Reads out a finished capture: the DMA status (clearing the
/// buffer-written flags), the acquisition-trigger status, and the captured
/// region itself (clearing it behind the read).
pub fn collect_results(
    dma: &mut DmaController,
    acq: &mut AcqController,
    ram: &mut MemoryController,
    offset: usize,
    length: usize,
) -> (r: Result<CaptureReport, DriverError>)
    requires
        old(dma).wf(),
        old(acq).wf(),
        old(ram).wf(),
    ensures
        final(dma).wf(),
        final(acq).wf(),
        final(ram).wf(),
        *final(acq) == *old(acq),
        final(dma).irq_snapshot() == old(dma).irq_snapshot(),
        final(dma).notifier_spec() == old(dma).notifier_spec(),
        final(dma).programmed_spec() == old(dma).programmed_spec(),
        final(dma).count_spec() == old(dma).count_spec(),
        r is Ok <==> (0x24 <= old(dma).window().len() && 0x28 <= old(acq).window().len()
            && read_in_bounds(offset as int, length as int, old(ram).window().len() as int)),
        r matches Ok(report) ==> {
            &&& report.dma_status.flags == load_word(old(dma).window(), 0x4)
            &&& final(dma).window() == store_word(old(dma).window(), 0x4, 0)
            &&& load_word(final(dma).window(), 0x4) == 0
            &&& report.dma_status.diagnostics@.len() == 7
            &&& forall|k: int|
                0 <= k < 7 ==> report.dma_status.diagnostics@[k] == load_word(
                    old(dma).window(),
                    0x8 + 4 * k,
                )
            &&& report.acq_status == load_word(old(acq).window(), 0x24)
            &&& report.data@ == read_words(
                old(ram).window(),
                offset as int,
                stride_count(length as int),
            )
            &&& final(ram).window() == zeroed_range(
                old(ram).window(),
                offset as int,
                stride_count(length as int),
            )
        },
        r is Err ==> r->Err_0 == DriverError::OutOfBounds,
{
    let dma_status = match dma.read_status() {
        Ok(st) => st,
        Err(e) => {
            return Err(e);
        },
    };
    let acq_status = match acq.read_status() {
        Ok(v) => v,
        Err(e) => {
            return Err(e);
        },
    };
    let data = match ram.read_memory(offset, length) {
        Ok(v) => v,
        Err(e) => {
            return Err(e);
        },
    };
    Ok(CaptureReport { dma_status, acq_status, data })
}

} // verus!
