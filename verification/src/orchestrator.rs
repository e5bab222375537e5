use crate::acq::AcqController;
use crate::dma::{DmaController, DMA_IRQ_COUNT_OFFSET};
use crate::errors::DriverError;
use crate::gate::ConfigController;
use crate::memory::{read_in_bounds, read_words, stride_count, zeroed_range, MemoryController};
use crate::sequence::{arm_fits, arm_sequence, collect_results, CaptureReport};
use crate::slcr::SlcrController;
use crate::words::{load_word, store_word};
use vstd::prelude::*;

verus! {

/// The phases of one capture run, in the order the hardware requires.
/// Transitions are strictly sequential and there is no recovery
/// transition: a failure at any phase aborts the whole run.
pub enum Phase {
    /// Controllers built; no register touched yet.
    Idle,
    /// Clock, front end, capture envelope and descriptors programmed, the
    /// capture gate open; the trigger-start interrupt is awaited.
    AwaitingTriggerStart,
    /// Trigger start observed; the batch of buffer completions of the open
    /// capture gate is being collected.
    AwaitingDmaBatch,
    /// The full batch observed; the trigger-stop interrupt is awaited.
    AwaitingTriggerStop,
    /// Trigger stop observed; the capture gate may now be masked.
    TriggerStopped,
    /// Gate masked; the remaining batch of buffer completions is awaited.
    AwaitingRemainingBatch,
    /// Every awaited event observed; status and memory may be read out.
    ReadoutReady,
    /// The capture has been read out.
    Done,
}

/// Sequences the controllers into one working capture:
/// configure → arm → gate → wait (trigger start, buffer batch, trigger
/// stop) → mask → wait (remaining batch) → read status → read memory.
///
/// The phase is part of each method's contract, so arming twice, masking
/// before the trigger stopped, or reading out before the last buffer
/// completed is a verification error at the call site, not a latent
/// hardware hazard. Each step also carries the underlying controller's
/// exact contract, so a caller that only sees this layer still knows which
/// registers moved and when a wait is owed success. `batch_target` is the
/// number of buffer completions awaited per capture-gate opening — a
/// configuration constant, not something discovered at runtime.
pub struct Orchestrator {
    slcr: SlcrController,
    cfg: ConfigController,
    acq: AcqController,
    dma: DmaController,
    ram: MemoryController,
    batch_target: u32,
    batches_seen: u32,
    phase: Ghost<Phase>,
}

impl Orchestrator {
    pub closed spec fn phase_spec(self) -> Phase {
        self.phase@
    }

    pub closed spec fn slcr_spec(self) -> SlcrController {
        self.slcr
    }

    pub closed spec fn cfg_spec(self) -> ConfigController {
        self.cfg
    }

    pub closed spec fn acq_spec(self) -> AcqController {
        self.acq
    }

    pub closed spec fn dma_spec(self) -> DmaController {
        self.dma
    }

    pub closed spec fn ram_spec(self) -> MemoryController {
        self.ram
    }

    /// How many buffer completions each capture-gate opening awaits.
    pub closed spec fn batch_target_spec(self) -> u32 {
        self.batch_target
    }

    /// How many completions of the current batch have been observed.
    pub closed spec fn batches_seen_spec(self) -> u32 {
        self.batches_seen
    }

    /// Everything a DMA wait may not touch: the four other controllers and
    /// the batch target.
    pub open spec fn state_outside_dma(self) -> (
        SlcrController,
        ConfigController,
        AcqController,
        MemoryController,
        u32,
    ) {
        (self.slcr_spec(), self.cfg_spec(), self.acq_spec(), self.ram_spec(), self.batch_target_spec())
    }

    /// Everything a trigger wait may not touch: the four other controllers
    /// and the batch target.
    pub open spec fn state_outside_cfg(self) -> (
        SlcrController,
        AcqController,
        DmaController,
        MemoryController,
        u32,
    ) {
        (self.slcr_spec(), self.acq_spec(), self.dma_spec(), self.ram_spec(), self.batch_target_spec())
    }

    pub closed spec fn wf(self) -> bool {
        &&& self.slcr.wf()
        &&& self.cfg.wf()
        &&& self.acq.wf()
        &&& self.dma.wf()
        &&& self.ram.wf()
    }

    /// Builds the run over its five controllers, in the idle phase.
    pub fn new(
        slcr: SlcrController,
        cfg: ConfigController,
        acq: AcqController,
        dma: DmaController,
        ram: MemoryController,
        batch_target: u32,
    ) -> (o: Self)
        requires
            slcr.wf(),
            cfg.wf(),
            acq.wf(),
            dma.wf(),
            ram.wf(),
        ensures
            o.wf(),
            o.phase_spec() == Phase::Idle,
            o.batch_target_spec() == batch_target,
            o.batches_seen_spec() == 0,
            o.slcr_spec() == slcr,
            o.cfg_spec() == cfg,
            o.acq_spec() == acq,
            o.dma_spec() == dma,
            o.ram_spec() == ram,
    {
        Orchestrator {
            slcr,
            cfg,
            acq,
            dma,
            ram,
            batch_target,
            batches_seen: 0,
            phase: Ghost(Phase::Idle),
        }
    }

    /// A hardware edge arrived on the trigger-start/stop interrupt line:
    /// the capture-gate handle's event counter advances by one (wrapping at
    /// the 32-bit boundary); nothing else moves.
    pub fn notify_trigger_edge(&mut self)
        requires
            old(self).wf(),
        ensures
            final(self).wf(),
            final(self).phase_spec() == old(self).phase_spec(),
            final(self).batches_seen_spec() == old(self).batches_seen_spec(),
            final(self).state_outside_cfg() == old(self).state_outside_cfg(),
            final(self).cfg_spec().window() == old(self).cfg_spec().window(),
            final(self).cfg_spec().notifier_spec().counter_spec() == ((old(self).cfg_spec().notifier_spec().counter_spec() + 1) % 0x1_0000_0000) as u32,
            final(self).cfg_spec().notifier_spec().last_read_spec() == old(self).cfg_spec().notifier_spec().last_read_spec(),
            final(self).cfg_spec().notifier_spec().is_armed() == old(self).cfg_spec().notifier_spec().is_armed(),
    {
        self.cfg.notify_edge();
    }

    /// A hardware edge arrived on the DMA engine's interrupt line: the
    /// engine's event counter advances by one (wrapping at the 32-bit
    /// boundary) if a handle is configured; nothing else moves.
    pub fn notify_dma_edge(&mut self)
        requires
            old(self).wf(),
        ensures
            final(self).wf(),
            final(self).phase_spec() == old(self).phase_spec(),
            final(self).batches_seen_spec() == old(self).batches_seen_spec(),
            final(self).state_outside_dma() == old(self).state_outside_dma(),
            final(self).dma_spec().window() == old(self).dma_spec().window(),
            final(self).dma_spec().irq_snapshot() == old(self).dma_spec().irq_snapshot(),
            final(self).dma_spec().programmed_spec() == old(self).dma_spec().programmed_spec(),
            final(self).dma_spec().count_spec() == old(self).dma_spec().count_spec(),
            old(self).dma_spec().notifier_spec() matches Some(h) ==> (final(self).dma_spec().notifier_spec() matches Some(h2) && h2.counter_spec() == ((h.counter_spec() + 1) % 0x1_0000_0000) as u32 && h2.last_read_spec() == h.last_read_spec() && h2.is_armed() == h.is_armed()),
            old(self).dma_spec().notifier_spec() is None ==> final(self).dma_spec() == old(self).dma_spec(),
    {
        self.dma.notify_edge();
    }

    /// Arms the whole pipeline and opens the capture gate; only legal from
    /// the idle phase. On success every fact of the arming sequence holds:
    /// the clock-control register reprogrammed, the front-end rate
    /// registers holding `cic` and `nco`, both soft-reset pulses settled to
    /// the cleared state, the four (delay, width) pairs in place, the
    /// descriptor set complete, and the capture gate unmasked.
    pub fn arm(
        &mut self,
        cic: u16,
        nco: u32,
        delays: [u32; 4],
        widths: [u32; 4],
        addresses: &Vec<u32>,
    ) -> (r: Result<(), DriverError>)
        requires
            old(self).wf(),
            old(self).phase_spec() == Phase::Idle,
            addresses@.len() <= 0xFFFF_FFFF,
        ensures
            final(self).wf(),
            final(self).ram_spec() == old(self).ram_spec(),
            final(self).batch_target_spec() == old(self).batch_target_spec(),
            r is Ok <==> arm_fits(
                old(self).slcr_spec().window().len() as int,
                old(self).cfg_spec().window().len() as int,
                old(self).acq_spec().window().len() as int,
                old(self).dma_spec().window().len() as int,
                addresses@.len() as int,
            ),
            r is Ok ==> final(self).phase_spec() == Phase::AwaitingTriggerStart,
            r is Ok ==> load_word(final(self).slcr_spec().window(), 368) == ((load_word(old(self).slcr_spec().window(), 368) & !0x03F03F30u32) | 0x00100700u32),
            r is Ok ==> load_word(final(self).cfg_spec().window(), 0x8) == cic as u32,
            r is Ok ==> load_word(final(self).cfg_spec().window(), 0x4) == nco,
            r is Ok ==> final(self).cfg_spec().gate_unmasked(),
            r is Ok ==> load_word(final(self).acq_spec().window(), 0x20) == 0,
            r is Ok ==> forall|k: int|
                0 <= k < 4 ==> load_word(final(self).acq_spec().window(), 0x4 + 8 * k)
                    == delays[k],
            r is Ok ==> forall|k: int|
                0 <= k < 4 ==> load_word(final(self).acq_spec().window(), 8 * k) == widths[k],
            r is Ok ==> load_word(final(self).dma_spec().window(), 0x0) == 0,
            r is Ok ==> final(self).dma_spec().buffers_configured() && final(self).dma_spec().count_spec() == Some(addresses@.len() as u32),
            r is Ok ==> forall|j: int|
                0 <= j < addresses@.len() ==> load_word(final(self).dma_spec().window(), 0x20 + 4 * j) == addresses@[j],
            r is Err ==> final(self).phase_spec() == Phase::Idle && r->Err_0
                == DriverError::OutOfBounds,
    {
        let r = arm_sequence(
            &mut self.slcr,
            &mut self.cfg,
            &mut self.acq,
            &mut self.dma,
            cic,
            nco,
            delays,
            widths,
            addresses,
        );
        match r {
            Ok(()) => {
                proof {
                    self.phase@ = Phase::AwaitingTriggerStart;
                }
                Ok(())
            },
            Err(e) => Err(e),
        }
    }

    /// Consumes the trigger-start edge; the buffer batch follows. Succeeds
    /// exactly when the capture-gate handle is armed with a pending edge;
    /// afterwards the handle stands re-armed with its edge consumed, its
    /// counter unchanged, so a second wait is owed nothing until a new
    /// hardware edge arrives.
    pub fn await_trigger_start(&mut self) -> (r: Result<(), DriverError>)
        requires
            old(self).wf(),
            old(self).phase_spec() == Phase::AwaitingTriggerStart,
        ensures
            final(self).wf(),
            final(self).state_outside_cfg() == old(self).state_outside_cfg(),
            final(self).cfg_spec().window() == old(self).cfg_spec().window(),
            r is Ok <==> old(self).cfg_spec().notifier_spec().wait_succeeds(),
            r is Ok ==> final(self).phase_spec() == Phase::AwaitingDmaBatch && final(self).batches_seen_spec() == 0,
            r is Ok ==> final(self).cfg_spec().notifier_spec().is_armed() && !final(self).cfg_spec().notifier_spec().is_pending() && final(self).cfg_spec().notifier_spec().counter_spec() == old(self).cfg_spec().notifier_spec().counter_spec(),
            r is Err ==> final(self).cfg_spec() == old(self).cfg_spec() && final(self).batches_seen_spec() == old(self).batches_seen_spec() && final(self).phase_spec() == Phase::AwaitingTriggerStart && r->Err_0 == DriverError::NotificationIoFailure,
    {
        match self.cfg.wait_for_completion() {
            Ok(()) => {
                self.batches_seen = 0;
                proof {
                    self.phase@ = Phase::AwaitingDmaBatch;
                }
                Ok(())
            },
            Err(e) => Err(e),
        }
    }

    /// Consumes one buffer-completion event of the open-gate batch; once
    /// the full batch is in, the trigger stop is awaited next. With a
    /// notification handle configured on the engine, success is owed
    /// exactly when that handle is armed with a pending edge, and the wait
    /// leaves it re-armed with the edge consumed; without one, success is
    /// owed exactly when the IRQ counter register differs from the engine's
    /// snapshot.
    pub fn await_dma_batch(&mut self) -> (r: Result<(), DriverError>)
        requires
            old(self).wf(),
            old(self).phase_spec() == Phase::AwaitingDmaBatch,
            old(self).batches_seen_spec() < old(self).batch_target_spec(),
        ensures
            final(self).wf(),
            final(self).state_outside_dma() == old(self).state_outside_dma(),
            final(self).dma_spec().window() == old(self).dma_spec().window(),
            final(self).dma_spec().irq_snapshot() == old(self).dma_spec().irq_snapshot(),
            final(self).dma_spec().programmed_spec() == old(self).dma_spec().programmed_spec(),
            final(self).dma_spec().count_spec() == old(self).dma_spec().count_spec(),
            old(self).dma_spec().notifier_spec() matches Some(h) ==> {
                &&& (r is Ok <==> h.wait_succeeds())
                &&& r is Ok ==> (final(self).dma_spec().notifier_spec() matches Some(h2) && h2.is_armed() && !h2.is_pending() && h2.counter_spec() == h.counter_spec())
                &&& r is Err ==> final(self).dma_spec() == old(self).dma_spec() && r->Err_0 == DriverError::NotificationIoFailure
            },
            old(self).dma_spec().notifier_spec() is None ==> {
                &&& final(self).dma_spec() == old(self).dma_spec()
                &&& (r is Ok <==> (DMA_IRQ_COUNT_OFFSET + 4 <= old(self).dma_spec().window().len() && load_word(old(self).dma_spec().window(), DMA_IRQ_COUNT_OFFSET as int) != old(self).dma_spec().irq_snapshot()))
                &&& old(self).dma_spec().window().len() < DMA_IRQ_COUNT_OFFSET + 4 && r is Err ==> r->Err_0 == DriverError::OutOfBounds
                &&& DMA_IRQ_COUNT_OFFSET + 4 <= old(self).dma_spec().window().len() && r is Err ==> r->Err_0 == DriverError::NotificationIoFailure
            },
            r is Ok ==> final(self).batches_seen_spec() == old(self).batches_seen_spec() + 1,
            r is Ok ==> final(self).phase_spec() == (if old(self).batches_seen_spec() + 1 == old(self).batch_target_spec() {
                Phase::AwaitingTriggerStop
            } else {
                Phase::AwaitingDmaBatch
            }),
            r is Err ==> final(self).phase_spec() == Phase::AwaitingDmaBatch && final(self).batches_seen_spec() == old(self).batches_seen_spec(),
    {
        match self.dma.wait_for_completion() {
            Ok(()) => {
                self.batches_seen = self.batches_seen + 1;
                proof {
                    if self.batches_seen == self.batch_target {
                        self.phase@ = Phase::AwaitingTriggerStop;
                    }
                }
                Ok(())
            },
            Err(e) => Err(e),
        }
    }

    /// Consumes the trigger-stop edge; the capture gate may be masked next.
    /// Succeeds exactly when the capture-gate handle is armed with a
    /// pending edge, and leaves it re-armed with the edge consumed and the
    /// counter unchanged.
    pub fn await_trigger_stop(&mut self) -> (r: Result<(), DriverError>)
        requires
            old(self).wf(),
            old(self).phase_spec() == Phase::AwaitingTriggerStop,
        ensures
            final(self).wf(),
            final(self).state_outside_cfg() == old(self).state_outside_cfg(),
            final(self).batches_seen_spec() == old(self).batches_seen_spec(),
            final(self).cfg_spec().window() == old(self).cfg_spec().window(),
            r is Ok <==> old(self).cfg_spec().notifier_spec().wait_succeeds(),
            r is Ok ==> final(self).phase_spec() == Phase::TriggerStopped,
            r is Ok ==> final(self).cfg_spec().notifier_spec().is_armed() && !final(self).cfg_spec().notifier_spec().is_pending() && final(self).cfg_spec().notifier_spec().counter_spec() == old(self).cfg_spec().notifier_spec().counter_spec(),
            r is Err ==> final(self).cfg_spec() == old(self).cfg_spec() && final(self).phase_spec() == Phase::AwaitingTriggerStop && r->Err_0 == DriverError::NotificationIoFailure,
    {
        match self.cfg.wait_for_completion() {
            Ok(()) => {
                proof {
                    self.phase@ = Phase::TriggerStopped;
                }
                Ok(())
            },
            Err(e) => Err(e),
        }
    }

    /// Masks the capture gate, once the trigger has stopped; no further
    /// wait stands between the stop edge and the mask. On success the
    /// enable bit holds 0 and nothing else of the capture-gate window
    /// moved.
    pub fn mask(&mut self) -> (r: Result<(), DriverError>)
        requires
            old(self).wf(),
            old(self).phase_spec() == Phase::TriggerStopped,
        ensures
            final(self).wf(),
            final(self).state_outside_cfg() == old(self).state_outside_cfg(),
            final(self).cfg_spec().notifier_spec() == old(self).cfg_spec().notifier_spec(),
            r is Ok <==> 0x18 <= old(self).cfg_spec().window().len(),
            r is Ok ==> final(self).phase_spec() == Phase::AwaitingRemainingBatch && final(self).batches_seen_spec() == 0,
            r is Ok ==> final(self).cfg_spec().window() == store_word(old(self).cfg_spec().window(), 0x14, 0x0),
            r is Ok ==> !final(self).cfg_spec().gate_unmasked(),
            r is Err ==> final(self).cfg_spec() == old(self).cfg_spec() && final(self).batches_seen_spec() == old(self).batches_seen_spec() && final(self).phase_spec() == Phase::TriggerStopped && r->Err_0 == DriverError::OutOfBounds,
    {
        match self.cfg.mask_gate() {
            Ok(()) => {
                self.batches_seen = 0;
                proof {
                    self.phase@ = Phase::AwaitingRemainingBatch;
                }
                Ok(())
            },
            Err(e) => Err(e),
        }
    }

    /// Consumes one buffer completion still in flight after the mask; once
    /// the remaining batch is in, the capture may be read out. Success is
    /// owed under exactly the same conditions as [`Self::await_dma_batch`]:
    /// a pending edge on the engine's armed handle, or a moved IRQ counter
    /// in poll mode.
    pub fn await_remaining_batch(&mut self) -> (r: Result<(), DriverError>)
        requires
            old(self).wf(),
            old(self).phase_spec() == Phase::AwaitingRemainingBatch,
            old(self).batches_seen_spec() < old(self).batch_target_spec(),
        ensures
            final(self).wf(),
            final(self).state_outside_dma() == old(self).state_outside_dma(),
            final(self).dma_spec().window() == old(self).dma_spec().window(),
            final(self).dma_spec().irq_snapshot() == old(self).dma_spec().irq_snapshot(),
            final(self).dma_spec().programmed_spec() == old(self).dma_spec().programmed_spec(),
            final(self).dma_spec().count_spec() == old(self).dma_spec().count_spec(),
            old(self).dma_spec().notifier_spec() matches Some(h) ==> {
                &&& (r is Ok <==> h.wait_succeeds())
                &&& r is Ok ==> (final(self).dma_spec().notifier_spec() matches Some(h2) && h2.is_armed() && !h2.is_pending() && h2.counter_spec() == h.counter_spec())
                &&& r is Err ==> final(self).dma_spec() == old(self).dma_spec() && r->Err_0 == DriverError::NotificationIoFailure
            },
            old(self).dma_spec().notifier_spec() is None ==> {
                &&& final(self).dma_spec() == old(self).dma_spec()
                &&& (r is Ok <==> (DMA_IRQ_COUNT_OFFSET + 4 <= old(self).dma_spec().window().len() && load_word(old(self).dma_spec().window(), DMA_IRQ_COUNT_OFFSET as int) != old(self).dma_spec().irq_snapshot()))
                &&& old(self).dma_spec().window().len() < DMA_IRQ_COUNT_OFFSET + 4 && r is Err ==> r->Err_0 == DriverError::OutOfBounds
                &&& DMA_IRQ_COUNT_OFFSET + 4 <= old(self).dma_spec().window().len() && r is Err ==> r->Err_0 == DriverError::NotificationIoFailure
            },
            r is Ok ==> final(self).batches_seen_spec() == old(self).batches_seen_spec() + 1,
            r is Ok ==> final(self).phase_spec() == (if old(self).batches_seen_spec() + 1 == old(self).batch_target_spec() {
                Phase::ReadoutReady
            } else {
                Phase::AwaitingRemainingBatch
            }),
            r is Err ==> final(self).phase_spec() == Phase::AwaitingRemainingBatch && final(self).batches_seen_spec() == old(self).batches_seen_spec(),
    {
        match self.dma.wait_for_completion() {
            Ok(()) => {
                self.batches_seen = self.batches_seen + 1;
                proof {
                    if self.batches_seen == self.batch_target {
                        self.phase@ = Phase::ReadoutReady;
                    }
                }
                Ok(())
            },
            Err(e) => Err(e),
        }
    }

    /// Reads the capture out: the DMA status (reporting, then clearing, the
    /// buffer-written flags, and dumping the seven diagnostic words), the
    /// acquisition-trigger status word, and the captured region itself,
    /// cleared behind the read. Ends the run.
    pub fn read_out(&mut self, offset: usize, length: usize) -> (r: Result<
        CaptureReport,
        DriverError,
    >)
        requires
            old(self).wf(),
            old(self).phase_spec() == Phase::ReadoutReady,
        ensures
            final(self).wf(),
            final(self).slcr_spec() == old(self).slcr_spec(),
            final(self).cfg_spec() == old(self).cfg_spec(),
            final(self).acq_spec() == old(self).acq_spec(),
            final(self).batch_target_spec() == old(self).batch_target_spec(),
            final(self).dma_spec().irq_snapshot() == old(self).dma_spec().irq_snapshot(),
            final(self).dma_spec().notifier_spec() == old(self).dma_spec().notifier_spec(),
            final(self).dma_spec().programmed_spec() == old(self).dma_spec().programmed_spec(),
            final(self).dma_spec().count_spec() == old(self).dma_spec().count_spec(),
            r is Ok <==> (0x24 <= old(self).dma_spec().window().len() && 0x28 <= old(self).acq_spec().window().len() && read_in_bounds(
                offset as int,
                length as int,
                old(self).ram_spec().window().len() as int,
            )),
            r matches Ok(report) ==> {
                &&& report.dma_status.flags == load_word(old(self).dma_spec().window(), 0x4)
                &&& final(self).dma_spec().window() == store_word(old(self).dma_spec().window(), 0x4, 0)
                &&& load_word(final(self).dma_spec().window(), 0x4) == 0
                &&& report.dma_status.diagnostics@.len() == 7
                &&& forall|k: int|
                    0 <= k < 7 ==> report.dma_status.diagnostics@[k] == load_word(
                        old(self).dma_spec().window(),
                        0x8 + 4 * k,
                    )
                &&& report.acq_status == load_word(old(self).acq_spec().window(), 0x24)
                &&& report.data@ == read_words(
                    old(self).ram_spec().window(),
                    offset as int,
                    stride_count(length as int),
                )
                &&& final(self).ram_spec().window() == zeroed_range(
                    old(self).ram_spec().window(),
                    offset as int,
                    stride_count(length as int),
                )
            },
            r is Ok ==> final(self).phase_spec() == Phase::Done,
            r is Err ==> final(self).phase_spec() == Phase::ReadoutReady && r->Err_0
                == DriverError::OutOfBounds,
    {
        match collect_results(&mut self.dma, &mut self.acq, &mut self.ram, offset, length) {
            Ok(report) => {
                proof {
                    self.phase@ = Phase::Done;
                }
                Ok(report)
            },
            Err(e) => Err(e),
        }
    }

    /// Ends the finished run, handing the readback scanner back for any
    /// further passes over the captured region.
    pub fn finish(self) -> (ram: MemoryController)
        requires
            self.phase_spec() == Phase::Done,
        ensures
            ram == self.ram_spec(),
            self.wf() ==> ram.wf(),
    {
        let Orchestrator { ram, .. } = self;
        ram
    }
}

} // verus!
