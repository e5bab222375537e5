use crate::errors::DriverError;
use crate::window::MemoryMap;
use crate::words::{lemma_store_load, lemma_store_load_disjoint, load_word, store_word};
use vstd::prelude::*;

verus! {

/// Register offsets of the acquisition-trigger controller, in bytes from
/// its window base: width windows 0-3 at 0x0/0x8/0x10/0x18, delay windows
/// 0-3 at 0x4/0xC/0x14/0x1C.
pub const ACQ_SOFT_RESET_OFFSET: usize = 0x20;

pub const ACQ_STATUS_OFFSET: usize = 0x24;

/// The acquisition-trigger controller: programs the fixed set of four
/// (delay, width) window pairs that define the capture envelope, resets,
/// and reports status.
pub struct AcqController {
    mmap: MemoryMap,
}

impl AcqController {
    /// The bytes of the controller's register window.
    pub closed spec fn window(self) -> Seq<u8> {
        self.mmap@
    }

    pub closed spec fn wf(self) -> bool {
        self.mmap.wf()
    }

    /// A new controller over its register window.
    pub fn new(mmap: MemoryMap) -> (c: Self)
        requires
            mmap.wf(),
        ensures
            c.wf(),
            c.window() == mmap@,
    {
        AcqController { mmap }
    }

    /// Pulses the reset bit high then low. Observing the reset register
    /// immediately afterwards shows the cleared state, never the asserted
    /// one.
    pub fn soft_reset(&mut self) -> (r: Result<(), DriverError>)
        requires
            old(self).wf(),
        ensures
            final(self).wf(),
            r is Ok <==> ACQ_SOFT_RESET_OFFSET + 4 <= old(self).window().len(),
            r is Ok ==> final(self).window() == store_word(
                store_word(old(self).window(), ACQ_SOFT_RESET_OFFSET as int, 0x1),
                ACQ_SOFT_RESET_OFFSET as int,
                0x0,
            ),
            r is Ok ==> load_word(final(self).window(), ACQ_SOFT_RESET_OFFSET as int) == 0,
            r is Err ==> *final(self) == *old(self) && r->Err_0 == DriverError::OutOfBounds,
    {
        match self.mmap.write(ACQ_SOFT_RESET_OFFSET, 0x1) {
            Ok(()) => {
                let r = self.mmap.write(ACQ_SOFT_RESET_OFFSET, 0x0);
                proof {
                    lemma_store_load(
                        store_word(old(self).window(), ACQ_SOFT_RESET_OFFSET as int, 0x1),
                        ACQ_SOFT_RESET_OFFSET as int,
                        0x0,
                    );
                }
                r
            },
            Err(e) => Err(e),
        }
    }

    /// Programs the four delay windows, at registers 0x4, 0xC, 0x14 and
    /// 0x1C: `values[k]` is the delay of window `k` in sample-clock units.
    /// The window set is checked against the register window up front, so a
    /// rejected call touches no register at all. Both the delays and the
    /// widths must land before the capture gate is unmasked; the two calls are not
    /// transactional with respect to the hardware.
    pub fn configure_ds(&mut self, values: [u32; 4]) -> (r: Result<(), DriverError>)
        requires
            old(self).wf(),
        ensures
            final(self).wf(),
            r is Ok <==> 0x20 <= old(self).window().len(),
            r is Ok ==> final(self).window() == store_word(
                store_word(
                    store_word(store_word(old(self).window(), 0x4, values[0]), 0xC, values[1]),
                    0x14,
                    values[2],
                ),
                0x1C,
                values[3],
            ),
            r is Ok ==> forall|k: int|
                0 <= k < 4 ==> load_word(final(self).window(), 0x4 + 8 * k) == values[k],
            r is Err ==> *final(self) == *old(self) && r->Err_0 == DriverError::OutOfBounds,
    {
        if self.mmap.size() < 0x20 {
            return Err(DriverError::OutOfBounds);
        }
        let b0 = Ghost(self.window());
        let _ = self.mmap.write(0x4, values[0]);
        let b1 = Ghost(self.window());
        let _ = self.mmap.write(0xC, values[1]);
        let b2 = Ghost(self.window());
        let _ = self.mmap.write(0x14, values[2]);
        let b3 = Ghost(self.window());
        let _ = self.mmap.write(0x1C, values[3]);
        proof {
            lemma_store_load(b0@, 0x4, values[0]);
            lemma_store_load_disjoint(b1@, 0xC, values[1], 0x4);
            lemma_store_load_disjoint(b2@, 0x14, values[2], 0x4);
            lemma_store_load_disjoint(b3@, 0x1C, values[3], 0x4);
            lemma_store_load(b1@, 0xC, values[1]);
            lemma_store_load_disjoint(b2@, 0x14, values[2], 0xC);
            lemma_store_load_disjoint(b3@, 0x1C, values[3], 0xC);
            lemma_store_load(b2@, 0x14, values[2]);
            lemma_store_load_disjoint(b3@, 0x1C, values[3], 0x14);
            lemma_store_load(b3@, 0x1C, values[3]);
        }
        Ok(())
    }

    /// Programs the four width windows, at registers 0x0, 0x8, 0x10 and
    /// 0x18: `values[k]` is the width of window `k` in sample-clock units.
    /// The window set is checked against the register window up front, so a
    /// rejected call touches no register at all.
    pub fn configure_ws(&mut self, values: [u32; 4]) -> (r: Result<(), DriverError>)
        requires
            old(self).wf(),
        ensures
            final(self).wf(),
            r is Ok <==> 0x1C <= old(self).window().len(),
            r is Ok ==> final(self).window() == store_word(
                store_word(
                    store_word(store_word(old(self).window(), 0x0, values[0]), 0x8, values[1]),
                    0x10,
                    values[2],
                ),
                0x18,
                values[3],
            ),
            r is Ok ==> forall|k: int|
                0 <= k < 4 ==> load_word(final(self).window(), 8 * k) == values[k],
            r is Err ==> *final(self) == *old(self) && r->Err_0 == DriverError::OutOfBounds,
    {
        if self.mmap.size() < 0x1C {
            return Err(DriverError::OutOfBounds);
        }
        let b0 = Ghost(self.window());
        let _ = self.mmap.write(0x0, values[0]);
        let b1 = Ghost(self.window());
        let _ = self.mmap.write(0x8, values[1]);
        let b2 = Ghost(self.window());
        let _ = self.mmap.write(0x10, values[2]);
        let b3 = Ghost(self.window());
        let _ = self.mmap.write(0x18, values[3]);
        proof {
            lemma_store_load(b0@, 0x0, values[0]);
            lemma_store_load_disjoint(b1@, 0x8, values[1], 0x0);
            lemma_store_load_disjoint(b2@, 0x10, values[2], 0x0);
            lemma_store_load_disjoint(b3@, 0x18, values[3], 0x0);
            lemma_store_load(b1@, 0x8, values[1]);
            lemma_store_load_disjoint(b2@, 0x10, values[2], 0x8);
            lemma_store_load_disjoint(b3@, 0x18, values[3], 0x8);
            lemma_store_load(b2@, 0x10, values[2]);
            lemma_store_load_disjoint(b3@, 0x18, values[3], 0x10);
            lemma_store_load(b3@, 0x18, values[3]);
        }
        Ok(())
    }

    /// Reads the status word. No bit decoding happens in this layer; that
    /// is a caller concern.
    pub fn read_status(&mut self) -> (r: Result<u32, DriverError>)
        requires
            old(self).wf(),
        ensures
            *final(self) == *old(self),
            r is Ok <==> ACQ_STATUS_OFFSET + 4 <= old(self).window().len(),
            r is Ok ==> r->Ok_0 == load_word(old(self).window(), ACQ_STATUS_OFFSET as int),
            r is Err ==> r->Err_0 == DriverError::OutOfBounds,
    {
        self.mmap.read(ACQ_STATUS_OFFSET)
    }

    /// Gives the register window back, ending the controller's ownership.
    pub fn release(self) -> (w: MemoryMap)
        ensures
            w@ == self.window(),
            self.wf() ==> w.wf(),
    {
        let AcqController { mmap } = self;
        mmap
    }
}

} // verus!
