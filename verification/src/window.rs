use crate::errors::DriverError;
use crate::mapping;
use crate::words::{load_word, store_word};
use memmap2::MmapMut;
use vstd::prelude::*;

verus! {

/// Bounds-checked access to 32-bit registers over a fixed-size mapped
/// physical-address window.
///
/// The window's abstract state is the byte sequence of the mapped region
/// (`self@`). An access at offset `o` is legal exactly when `o + 4` fits
/// inside the window; both `write` and `read` enforce this. Offsets are not
/// required to be word-aligned by the type, though every defined register
/// sits on a 4-byte boundary.
///
/// The model treats the window as memory: a load returns what the last
/// store left, which is what the mapping's byte views give while the
/// window is exclusively owned (see [`crate::mapping`]). On a live device
/// the hardware itself writes some of these bytes — the free-running IRQ
/// counter, the buffer-written flags, the captured data — so a contract
/// that carries a loaded value across calls describes the model, not the
/// device; what such a register holds enters the reasoning only as the
/// value a load actually returned. Interrupt edges cross into the model
/// through explicit notification
/// ([`crate::notify::NotificationHandle::record_edge`]); hardware-written
/// register bytes have no such mirror.
pub struct MemoryMap {
    map: MmapMut,
    size: usize,
}

impl View for MemoryMap {
    type V = Seq<u8>;

    closed spec fn view(&self) -> Seq<u8> {
        mapping::mmap_bytes(self.map)
    }
}

impl MemoryMap {
    /// The cached window length agrees with the mapped region's length.
    pub closed spec fn wf(self) -> bool {
        self.size == mapping::mmap_bytes(self.map).len()
    }

    /// Wraps an already-mapped region. The caller chooses where the mapping
    /// points; this type only guarantees in-bounds access from then on.
    pub fn new(map: MmapMut) -> (w: Self)
        ensures
            w.wf(),
            w@ == mapping::mmap_bytes(map),
    {
        let size = mapping::mmap_len(&map);
        MemoryMap { map, size }
    }

    /// Builds a window over a fresh anonymous mapping of `size` zero bytes,
    /// for callers that exercise the register layer without device memory.
    pub fn new_anon(size: usize) -> (r: Result<Self, DriverError>)
        ensures
            r matches Ok(w) ==> w.wf() && w@ == Seq::new(size as nat, |i: int| 0u8),
            r matches Err(e) ==> e == DriverError::MappingFailure,
    {
        match mapping::map_anon(size) {
            Ok(map) => Ok(Self::new(map)),
            Err(e) => Err(e),
        }
    }

    /// The byte length of the window.
    pub fn size(&self) -> (r: usize)
        requires
            self.wf(),
        ensures
            r == self@.len(),
    {
        self.size
    }

    /// An access at `offset` is in bounds exactly when `offset + 4` fits.
    fn validate_offset(&self, offset: usize) -> (r: Result<(), DriverError>)
        requires
            self.wf(),
        ensures
            r is Ok <==> offset + 4 <= self@.len(),
            r is Err ==> r->Err_0 == DriverError::OutOfBounds,
    {
        if offset > usize::MAX - 4 || offset + 4 > self.size {
            Err(DriverError::OutOfBounds)
        } else {
            Ok(())
        }
    }

    /// Stores `data` as a 32-bit word at `offset`. Fails with `OutOfBounds`
    /// exactly when `offset + 4 > length`, leaving the window untouched; on
    /// success only the four bytes at `offset` change.
    pub fn write(&mut self, offset: usize, data: u32) -> (r: Result<(), DriverError>)
        requires
            old(self).wf(),
        ensures
            final(self).wf(),
            r is Ok <==> offset + 4 <= old(self)@.len(),
            r is Ok ==> final(self)@ == store_word(old(self)@, offset as int, data),
            r is Err ==> *final(self) == *old(self) && r->Err_0 == DriverError::OutOfBounds,
    {
        match self.validate_offset(offset) {
            Ok(()) => {
                mapping::mmap_store_u32(&mut self.map, offset, data);
                Ok(())
            },
            Err(e) => Err(e),
        }
    }

    /// Loads the 32-bit word at `offset`. Fails with `OutOfBounds` exactly
    /// when `offset + 4 > length`; the window itself never changes.
    pub fn read(&mut self, offset: usize) -> (r: Result<u32, DriverError>)
        requires
            old(self).wf(),
        ensures
            *final(self) == *old(self),
            r is Ok <==> offset + 4 <= old(self)@.len(),
            r is Ok ==> r->Ok_0 == load_word(old(self)@, offset as int),
            r is Err ==> r->Err_0 == DriverError::OutOfBounds,
    {
        match self.validate_offset(offset) {
            Ok(()) => Ok(mapping::mmap_load_u32(&self.map, offset)),
            Err(e) => Err(e),
        }
    }
}

} // verus!
