use crate::errors::DriverError;
use crate::notify::NotificationHandle;
use crate::window::MemoryMap;
use crate::words::{lemma_store_load, load_word, store_word};
use vstd::prelude::*;

verus! {

/// Register offsets of the capture-gate/front-end controller, in bytes from its
/// window base.
pub const GATE_TOGGLE_OFFSET: usize = 0x0;

pub const GATE_NCO_RATE_OFFSET: usize = 0x4;

pub const GATE_CIC_RATE_OFFSET: usize = 0x8;

pub const GATE_MASK_OFFSET: usize = 0x14;

/// The capture gate/front-end controller: gates the acquisition path, programs the
/// front-end rate parameters (CIC decimation and NCO frequency), and waits
/// on the trigger-start/stop interrupt source.
///
/// Its notification handle is distinct from the DMA engine's handle, even
/// though both follow the same wait/re-arm shape.
pub struct ConfigController {
    mmap: MemoryMap,
    notifier: NotificationHandle,
}

impl ConfigController {
    /// The bytes of the controller's register window.
    pub closed spec fn window(self) -> Seq<u8> {
        self.mmap@
    }

    pub closed spec fn wf(self) -> bool {
        self.mmap.wf()
    }

    /// The trigger-start/stop notification handle tied to this controller.
    pub closed spec fn notifier_spec(self) -> NotificationHandle {
        self.notifier
    }

    /// The capture gate is unmasked while the enable bit last written is 1.
    pub open spec fn gate_unmasked(self) -> bool {
        load_word(self.window(), GATE_MASK_OFFSET as int) == 1
    }

    /// A new controller over its register window and the event handle of
    /// the trigger-start/stop interrupt source.
    pub fn new(mmap: MemoryMap, notifier: NotificationHandle) -> (c: Self)
        requires
            mmap.wf(),
        ensures
            c.wf(),
            c.window() == mmap@,
            c.notifier_spec() == notifier,
    {
        ConfigController { mmap, notifier }
    }

    /// Single-shot mode: toggles the one-bit gate register by XOR with its
    /// current value, producing a rising or falling edge depending on the
    /// prior state. The caller must track the parity externally.
    pub fn trigger_gate(&mut self) -> (r: Result<(), DriverError>)
        requires
            old(self).wf(),
        ensures
            final(self).wf(),
            final(self).notifier_spec() == old(self).notifier_spec(),
            r is Ok <==> GATE_TOGGLE_OFFSET + 4 <= old(self).window().len(),
            r is Ok ==> final(self).window() == store_word(
                old(self).window(),
                GATE_TOGGLE_OFFSET as int,
                load_word(old(self).window(), GATE_TOGGLE_OFFSET as int) ^ 0x1,
            ),
            r is Ok ==> load_word(final(self).window(), GATE_TOGGLE_OFFSET as int) == (load_word(
                old(self).window(),
                GATE_TOGGLE_OFFSET as int,
            ) ^ 0x1),
            r is Err ==> *final(self) == *old(self) && r->Err_0 == DriverError::OutOfBounds,
    {
        let curr_value = match self.mmap.read(GATE_TOGGLE_OFFSET) {
            Ok(v) => v,
            Err(e) => {
                return Err(e);
            },
        };
        let r = self.mmap.write(GATE_TOGGLE_OFFSET, curr_value ^ 0x1);
        proof {
            lemma_store_load(old(self).window(), GATE_TOGGLE_OFFSET as int, curr_value ^ 0x1);
        }
        r
    }

    /// Continuous-trigger mode: enables the acquisition path by writing 1 to
    /// the dedicated enable bit, independent of the toggle register.
    pub fn unmask_gate(&mut self) -> (r: Result<(), DriverError>)
        requires
            old(self).wf(),
        ensures
            final(self).wf(),
            final(self).notifier_spec() == old(self).notifier_spec(),
            r is Ok <==> GATE_MASK_OFFSET + 4 <= old(self).window().len(),
            r is Ok ==> final(self).window() == store_word(
                old(self).window(),
                GATE_MASK_OFFSET as int,
                0x1,
            ),
            r is Ok ==> final(self).gate_unmasked(),
            r is Err ==> *final(self) == *old(self) && r->Err_0 == DriverError::OutOfBounds,
    {
        let r = self.mmap.write(GATE_MASK_OFFSET, 0x1);
        proof {
            if GATE_MASK_OFFSET + 4 <= old(self).window().len() {
                lemma_store_load(old(self).window(), GATE_MASK_OFFSET as int, 0x1);
            }
        }
        r
    }

    /// Disables the acquisition path by writing 0 to the enable bit.
    pub fn mask_gate(&mut self) -> (r: Result<(), DriverError>)
        requires
            old(self).wf(),
        ensures
            final(self).wf(),
            final(self).notifier_spec() == old(self).notifier_spec(),
            r is Ok <==> GATE_MASK_OFFSET + 4 <= old(self).window().len(),
            r is Ok ==> final(self).window() == store_word(
                old(self).window(),
                GATE_MASK_OFFSET as int,
                0x0,
            ),
            r is Ok ==> !final(self).gate_unmasked(),
            r is Err ==> *final(self) == *old(self) && r->Err_0 == DriverError::OutOfBounds,
    {
        let r = self.mmap.write(GATE_MASK_OFFSET, 0x0);
        proof {
            if GATE_MASK_OFFSET + 4 <= old(self).window().len() {
                lemma_store_load(old(self).window(), GATE_MASK_OFFSET as int, 0x0);
            }
        }
        r
    }

    /// Programs the front-end CIC decimation rate; valid only before the
    /// gate is unmasked.
    pub fn cic_rate(&mut self, rate: u16) -> (r: Result<(), DriverError>)
        requires
            old(self).wf(),
        ensures
            final(self).wf(),
            final(self).notifier_spec() == old(self).notifier_spec(),
            r is Ok <==> GATE_CIC_RATE_OFFSET + 4 <= old(self).window().len(),
            r is Ok ==> final(self).window() == store_word(
                old(self).window(),
                GATE_CIC_RATE_OFFSET as int,
                rate as u32,
            ),
            r is Ok ==> load_word(final(self).window(), GATE_CIC_RATE_OFFSET as int) == rate as u32,
            r is Err ==> *final(self) == *old(self) && r->Err_0 == DriverError::OutOfBounds,
    {
        let r = self.mmap.write(GATE_CIC_RATE_OFFSET, rate as u32);
        proof {
            if GATE_CIC_RATE_OFFSET + 4 <= old(self).window().len() {
                lemma_store_load(old(self).window(), GATE_CIC_RATE_OFFSET as int, rate as u32);
            }
        }
        r
    }

    /// Programs the numerically-controlled-oscillator rate; valid only
    /// before the capture gate is unmasked.
    pub fn nco_rate(&mut self, rate: u32) -> (r: Result<(), DriverError>)
        requires
            old(self).wf(),
        ensures
            final(self).wf(),
            final(self).notifier_spec() == old(self).notifier_spec(),
            r is Ok <==> GATE_NCO_RATE_OFFSET + 4 <= old(self).window().len(),
            r is Ok ==> final(self).window() == store_word(
                old(self).window(),
                GATE_NCO_RATE_OFFSET as int,
                rate,
            ),
            r is Ok ==> load_word(final(self).window(), GATE_NCO_RATE_OFFSET as int) == rate,
            r is Err ==> *final(self) == *old(self) && r->Err_0 == DriverError::OutOfBounds,
    {
        let r = self.mmap.write(GATE_NCO_RATE_OFFSET, rate);
        proof {
            if GATE_NCO_RATE_OFFSET + 4 <= old(self).window().len() {
                lemma_store_load(old(self).window(), GATE_NCO_RATE_OFFSET as int, rate);
            }
        }
        r
    }

    /// One hardware edge arrives on the trigger-start/stop interrupt line;
    /// the caller that owns the real event handle reports it here after its
    /// blocking read returns.
    pub fn notify_edge(&mut self)
        requires
            old(self).wf(),
        ensures
            final(self).wf(),
            final(self).window() == old(self).window(),
            final(self).notifier_spec().counter_spec() == ((old(self).notifier_spec().counter_spec() + 1) % 0x1_0000_0000) as u32,
            final(self).notifier_spec().last_read_spec() == old(self).notifier_spec().last_read_spec(),
            final(self).notifier_spec().is_armed() == old(self).notifier_spec().is_armed(),
    {
        self.notifier.record_edge();
    }

    /// Blocks on the trigger-start/stop notification source, consumes one
    /// edge, and re-arms the source for the next one. In this synchronous
    /// model a wait with no pending edge (or on a handle that was consumed
    /// and never re-armed) returns `NotificationIoFailure` instead of
    /// blocking forever.
    pub fn wait_for_completion(&mut self) -> (r: Result<(), DriverError>)
        requires
            old(self).wf(),
        ensures
            final(self).wf(),
            final(self).window() == old(self).window(),
            r is Ok <==> old(self).notifier_spec().wait_succeeds(),
            r is Ok ==> final(self).notifier_spec().is_armed() && !final(self).notifier_spec().is_pending() && final(self).notifier_spec().counter_spec() == old(self).notifier_spec().counter_spec(),
            r is Err ==> *final(self) == *old(self) && r->Err_0
                == DriverError::NotificationIoFailure,
    {
        match self.notifier.wait() {
            Ok(_) => {
                self.notifier.rearm();
                Ok(())
            },
            Err(e) => Err(e),
        }
    }

    /// Gives the register window back, ending the controller's ownership.
    pub fn release(self) -> (w: MemoryMap)
        ensures
            w@ == self.window(),
            self.wf() ==> w.wf(),
    {
        let ConfigController { mmap, .. } = self;
        mmap
    }
}

} // verus!
