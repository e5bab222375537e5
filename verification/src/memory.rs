use crate::errors::DriverError;
use crate::window::MemoryMap;
use crate::words::{lemma_load_zero, lemma_store_zero, load_word};
use vstd::prelude::*;

verus! {

/// Number of 8-byte strides needed to cover `length` bytes.
pub open spec fn stride_count(length: int) -> int {
    (length + 7) / 8
}

/// The 64-bit value whose 32-bit little-endian halves sit at `o` (low half)
/// and `o + 4` (high half).
pub open spec fn load_word64(b: Seq<u8>, o: int) -> u64 {
    ((load_word(b, o + 4) as u64) << 32) | (load_word(b, o) as u64)
}

/// The 64-bit words collected by one pass of `n` strides starting at
/// `offset`.
pub open spec fn read_words(b: Seq<u8>, offset: int, n: int) -> Seq<u64> {
    Seq::new(n as nat, |k: int| load_word64(b, offset + 8 * k))
}

/// `b` with the `8 * n` bytes from `offset` cleared to zero.
pub open spec fn zeroed_range(b: Seq<u8>, offset: int, n: int) -> Seq<u8> {
    Seq::new(
        b.len(),
        |i: int|
            if offset <= i < offset + 8 * n {
                0u8
            } else {
                b[i]
            },
    )
}

/// A pass of `length` bytes from `offset` stays inside a window of
/// `window_len` bytes: every 8-byte stride must fit, including the final
/// one that a partial tail length still occupies in full.
pub open spec fn read_in_bounds(offset: int, length: int, window_len: int) -> bool {
    length == 0 || offset + 8 * stride_count(length) <= window_len
}

/// The readback memory scanner: dumps the captured-data region in 8-byte
/// strides and clears it behind itself.
pub struct MemoryController {
    mmap: MemoryMap,
}

impl MemoryController {
    /// The bytes of the scanner's window over the captured-data region.
    pub closed spec fn window(self) -> Seq<u8> {
        self.mmap@
    }

    pub closed spec fn wf(self) -> bool {
        self.mmap.wf()
    }

    /// A new scanner over its captured-data window.
    pub fn new(mmap: MemoryMap) -> (c: Self)
        requires
            mmap.wf(),
        ensures
            c.wf(),
            c.window() == mmap@,
    {
        MemoryController { mmap }
    }

    /// Destructive read: walks the region in 8-byte strides, reading the
    /// low and high 32-bit halves of each 64-bit word, and immediately
    /// zeroes both halves to prepare the buffer for the next capture. The
    /// pass is checked against the window up front, so a rejected call
    /// touches no memory; on success it returns the words in stride order.
    pub fn read_memory(&mut self, offset: usize, length: usize) -> (r: Result<
        Vec<u64>,
        DriverError,
    >)
        requires
            old(self).wf(),
        ensures
            final(self).wf(),
            r is Ok <==> read_in_bounds(
                offset as int,
                length as int,
                old(self).window().len() as int,
            ),
            r matches Ok(v) ==> v@ == read_words(
                old(self).window(),
                offset as int,
                stride_count(length as int),
            ),
            r is Ok ==> final(self).window() == zeroed_range(
                old(self).window(),
                offset as int,
                stride_count(length as int),
            ),
            r is Err ==> *final(self) == *old(self) && r->Err_0 == DriverError::OutOfBounds,
    {
        let len = self.mmap.size();
        if length == 0 {
            let out: Vec<u64> = Vec::new();
            proof {
                assert(out@ =~= read_words(old(self).window(), offset as int, 0));
                assert(self.window() =~= zeroed_range(old(self).window(), offset as int, 0));
            }
            return Ok(out);
        }
        let n: usize = (length - 1) / 8 + 1;
        proof {
            assert(n == stride_count(length as int));
        }
        if offset > len || n > (len - offset) / 8 {
            return Err(DriverError::OutOfBounds);
        }
        assert(offset + 8 * n <= old(self).window().len());
        let mut out: Vec<u64> = Vec::new();
        let mut k: usize = 0;
        while k < n
            invariant
                self.wf(),
                1 <= n,
                old(self).window().len() <= usize::MAX,
                offset + 8 * n <= old(self).window().len(),
                k <= n,
                out@.len() == k,
                forall|j: int|
                    0 <= j < k ==> out@[j] == load_word64(old(self).window(), offset + 8 * j),
                self.window() == zeroed_range(old(self).window(), offset as int, k as int),
            decreases n - k,
        {
            let base = offset + 8 * k;
            let low = match self.mmap.read(base) {
                Ok(v) => v,
                Err(e) => {
                    return Err(e);
                },
            };
            let high = match self.mmap.read(base + 4) {
                Ok(v) => v,
                Err(e) => {
                    return Err(e);
                },
            };
            proof {
                assert(load_word(self.window(), base as int) == load_word(
                    old(self).window(),
                    base as int,
                ));
                assert(load_word(self.window(), base as int + 4) == load_word(
                    old(self).window(),
                    base as int + 4,
                ));
            }
            let value = ((high as u64) << 32) | (low as u64);
            out.push(value);
            let b_before = Ghost(self.window());
            let _ = self.mmap.write(base, 0x0);
            let b_mid = Ghost(self.window());
            let _ = self.mmap.write(base + 4, 0x0);
            proof {
                lemma_store_zero(b_before@, base as int);
                lemma_store_zero(b_mid@, base as int + 4);
                assert(self.window() =~= zeroed_range(
                    old(self).window(),
                    offset as int,
                    k as int + 1,
                ));
            }
            k = k + 1;
        }
        proof {
            assert(out@ =~= read_words(old(self).window(), offset as int, n as int));
        }
        Ok(out)
    }

    /// Gives the captured-data window back, ending the scanner's ownership.
    pub fn release(self) -> (w: MemoryMap)
        ensures
            w@ == self.window(),
            self.wf() ==> w.wf(),
    {
        let MemoryController { mmap } = self;
        mmap
    }
}

/// Destructive read is single-shot: the pass that returned the previously
/// written values leaves the range cleared, so a second pass over the same
/// range returns only zeros.
pub proof fn law_second_read_is_zero(b: Seq<u8>, offset: int, n: int)
    requires
        0 <= offset,
        0 <= n,
        offset + 8 * n <= b.len(),
    ensures
        forall|k: int|
            0 <= k < n ==> #[trigger] read_words(zeroed_range(b, offset, n), offset, n)[k] == 0,
{
    let z = zeroed_range(b, offset, n);
    assert forall|k: int| 0 <= k < n implies #[trigger] read_words(z, offset, n)[k] == 0 by {
        lemma_load_zero(z, offset + 8 * k);
        lemma_load_zero(z, offset + 8 * k + 4);
        assert(((0u32 as u64) << 32) | (0u32 as u64) == 0u64) by (bit_vector);
    }
}

} // verus!
