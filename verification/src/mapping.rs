//! The trusted boundary to memmap2's memory mappings.
//!
//! A mapping's abstract contents are the byte sequence `mmap_bytes`; the
//! store and load wrappers say what the slice operations of `MmapMut` do to
//! it. The contracts describe the mapping as memory — a load returns what
//! the last store left — which holds while each mapping is exclusively
//! owned and accessed by exactly one controller on one thread, as this
//! layer requires; the underlying device has no arbitration, so a
//! concurrent writer to the same physical range is outside the design.

use crate::errors::DriverError;
use crate::words::{load_word, store_word};
use memmap2::MmapMut;
use vstd::prelude::*;

verus! {

/// Declares memmap2's mutable memory mapping so that it can stand in
/// signatures and fields; its inside stays opaque.
#[verifier::external_type_specification]
#[verifier::external_body]
pub struct ExMmapMut(MmapMut);

/// The bytes of the mapped region, as the mapping's slice views present them.
pub uninterp spec fn mmap_bytes(m: MmapMut) -> Seq<u8>;

/// Relies on memmap2::MmapMut::map_anon: a fresh anonymous private mapping
/// of `length` bytes, zero-initialized by the operating system (the crate
/// maps with MAP_ANON, and its own tests assert the zero fill).
#[verifier::external_body]
pub(crate) fn map_anon(length: usize) -> (r: Result<MmapMut, DriverError>)
    ensures
        r matches Ok(m) ==> mmap_bytes(m) == Seq::new(length as nat, |i: int| 0u8),
        r matches Err(e) ==> e == DriverError::MappingFailure,
{
    match MmapMut::map_anon(length) {
        Ok(m) => Ok(m),
        Err(_) => Err(DriverError::MappingFailure),
    }
}

/// Relies on memmap2::MmapMut's Deref to the mapped byte slice: the slice's
/// length is the length of the mapped region.
#[verifier::external_body]
pub(crate) fn mmap_len(m: &MmapMut) -> (r: usize)
    ensures
        r == mmap_bytes(*m).len(),
{
    m.len()
}

/// Relies on memmap2::MmapMut's DerefMut to the mapped byte slice and on
/// <[u8]>::copy_from_slice with u32::to_le_bytes: stores the four
/// little-endian bytes of `v` at `offset .. offset + 4` and touches no other
/// byte.
#[verifier::external_body]
pub(crate) fn mmap_store_u32(m: &mut MmapMut, offset: usize, v: u32)
    requires
        offset + 4 <= mmap_bytes(*old(m)).len(),
    ensures
        mmap_bytes(*final(m)) == store_word(mmap_bytes(*old(m)), offset as int, v),
{
    m[offset..offset + 4].copy_from_slice(&v.to_le_bytes());
}

/// Relies on memmap2::MmapMut's Deref to the mapped byte slice and on
/// u32::from_le_bytes: returns the 32-bit value whose little-endian bytes
/// sit at `offset .. offset + 4`.
#[verifier::external_body]
pub(crate) fn mmap_load_u32(m: &MmapMut, offset: usize) -> (r: u32)
    requires
        offset + 4 <= mmap_bytes(*m).len(),
    ensures
        r == load_word(mmap_bytes(*m), offset as int),
{
    let bytes: [u8; 4] = m[offset..offset + 4].try_into().unwrap();
    u32::from_le_bytes(bytes)
}

} // verus!
