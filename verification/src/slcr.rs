use crate::errors::DriverError;
use crate::window::MemoryMap;
use crate::words::{lemma_store_load, lemma_store_load_disjoint, load_word, store_word};
use vstd::prelude::*;

verus! {

/// Register offsets and patterns of the platform clock/reset control block.
pub const SLCR_UNLOCK_OFFSET: usize = 0x8;

pub const SLCR_UNLOCK_KEY: u32 = 0xDF0D;

/// The clock-configuration register sits at byte offset 92 * 4.
pub const SLCR_CLOCK_CONFIG_OFFSET: usize = 368;

pub const SLCR_CLOCK_CLEAR_MASK: u32 = 0x03F03F30;

pub const SLCR_CLOCK_SET_PATTERN: u32 = 0x00100700;

/// The one-shot platform clock/reset controller: unlocks the clock-control
/// block and reprograms its configuration register. It runs once, before
/// any other controller touches its window; a failure is fatal, because a
/// mis-clocked fabric makes every later operation meaningless.
pub struct SlcrController {
    mmap: MemoryMap,
}

impl SlcrController {
    /// The bytes of the controller's register window.
    pub closed spec fn window(self) -> Seq<u8> {
        self.mmap@
    }

    pub closed spec fn wf(self) -> bool {
        self.mmap.wf()
    }

    /// A new controller over its register window.
    pub fn new(mmap: MemoryMap) -> (c: Self)
        requires
            mmap.wf(),
        ensures
            c.wf(),
            c.window() == mmap@,
    {
        SlcrController { mmap }
    }

    /// Writes the unlock key, then performs a read-modify-write on the
    /// clock-control register: clears the fixed bit mask, ORs in the fixed
    /// configuration pattern, and writes the result back. The window is
    /// checked up front, so a rejected call touches no register at all.
    pub fn initialize(&mut self) -> (r: Result<(), DriverError>)
        requires
            old(self).wf(),
        ensures
            final(self).wf(),
            r is Ok <==> SLCR_CLOCK_CONFIG_OFFSET + 4 <= old(self).window().len(),
            r is Ok ==> final(self).window() == store_word(
                store_word(old(self).window(), SLCR_UNLOCK_OFFSET as int, SLCR_UNLOCK_KEY),
                SLCR_CLOCK_CONFIG_OFFSET as int,
                (load_word(old(self).window(), SLCR_CLOCK_CONFIG_OFFSET as int)
                    & !SLCR_CLOCK_CLEAR_MASK) | SLCR_CLOCK_SET_PATTERN,
            ),
            r is Ok ==> load_word(final(self).window(), SLCR_UNLOCK_OFFSET as int)
                == SLCR_UNLOCK_KEY,
            r is Ok ==> load_word(final(self).window(), SLCR_CLOCK_CONFIG_OFFSET as int) == ((
            load_word(old(self).window(), SLCR_CLOCK_CONFIG_OFFSET as int)
                & !SLCR_CLOCK_CLEAR_MASK) | SLCR_CLOCK_SET_PATTERN),
            r is Err ==> *final(self) == *old(self) && r->Err_0 == DriverError::OutOfBounds,
    {
        if self.mmap.size() < 372 {
            return Err(DriverError::OutOfBounds);
        }
        let _ = self.mmap.write(SLCR_UNLOCK_OFFSET, SLCR_UNLOCK_KEY);
        proof {
            lemma_store_load_disjoint(
                old(self).window(),
                SLCR_UNLOCK_OFFSET as int,
                SLCR_UNLOCK_KEY,
                SLCR_CLOCK_CONFIG_OFFSET as int,
            );
        }
        let cur = match self.mmap.read(SLCR_CLOCK_CONFIG_OFFSET) {
            Ok(v) => v,
            Err(e) => {
                return Err(e);
            },
        };
        let b1 = Ghost(self.window());
        let x = (cur & !SLCR_CLOCK_CLEAR_MASK) | SLCR_CLOCK_SET_PATTERN;
        let r = self.mmap.write(SLCR_CLOCK_CONFIG_OFFSET, x);
        proof {
            lemma_store_load(b1@, SLCR_CLOCK_CONFIG_OFFSET as int, x);
            lemma_store_load_disjoint(
                b1@,
                SLCR_CLOCK_CONFIG_OFFSET as int,
                x,
                SLCR_UNLOCK_OFFSET as int,
            );
            lemma_store_load(
                old(self).window(),
                SLCR_UNLOCK_OFFSET as int,
                SLCR_UNLOCK_KEY,
            );
        }
        r
    }

    /// Gives the register window back, ending the controller's ownership.
    pub fn release(self) -> (w: MemoryMap)
        ensures
            w@ == self.window(),
            self.wf() ==> w.wf(),
    {
        let SlcrController { mmap } = self;
        mmap
    }
}

} // verus!
