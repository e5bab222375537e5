use vstd::prelude::*;

verus! {

/// The byte of `v` at little-endian position `k` (position 0 is the least
/// significant byte).
pub open spec fn le_byte(v: u32, k: int) -> u8 {
    if k == 0 {
        (v & 0xff) as u8
    } else if k == 1 {
        ((v >> 8) & 0xff) as u8
    } else if k == 2 {
        ((v >> 16) & 0xff) as u8
    } else {
        ((v >> 24) & 0xff) as u8
    }
}

/// The bytes `b` with the four little-endian bytes of `v` placed at
/// `o .. o + 4`; every other byte is unchanged.
pub open spec fn store_word(b: Seq<u8>, o: int, v: u32) -> Seq<u8> {
    b.update(o, le_byte(v, 0)).update(o + 1, le_byte(v, 1)).update(o + 2, le_byte(v, 2)).update(
        o + 3,
        le_byte(v, 3),
    )
}

/// The 32-bit value whose little-endian bytes sit at `o .. o + 4` of `b`.
pub open spec fn load_word(b: Seq<u8>, o: int) -> u32 {
    (b[o] as u32) | ((b[o + 1] as u32) << 8) | ((b[o + 2] as u32) << 16) | ((b[o + 3] as u32)
        << 24)
}

/// Round trip: writing a word and reading it back at the same in-bounds
/// offset yields the value written, for every value in the 32-bit domain.
pub proof fn lemma_store_load(b: Seq<u8>, o: int, v: u32)
    requires
        0 <= o,
        o + 4 <= b.len(),
    ensures
        load_word(store_word(b, o, v), o) == v,
{
    let s = store_word(b, o, v);
    assert(s[o] == le_byte(v, 0));
    assert(s[o + 1] == le_byte(v, 1));
    assert(s[o + 2] == le_byte(v, 2));
    assert(s[o + 3] == le_byte(v, 3));
    assert(((v & 0xff) as u8 as u32) | ((((v >> 8) & 0xff) as u8 as u32) << 8) | ((((v >> 16)
        & 0xff) as u8 as u32) << 16) | ((((v >> 24) & 0xff) as u8 as u32) << 24) == v)
        by (bit_vector);
}

/// A word loaded from outside the range of a store is unaffected by it.
pub proof fn lemma_store_load_disjoint(b: Seq<u8>, o: int, v: u32, o2: int)
    requires
        0 <= o,
        o + 4 <= b.len(),
        0 <= o2,
        o2 + 4 <= b.len(),
        o2 + 4 <= o || o + 4 <= o2,
    ensures
        load_word(store_word(b, o, v), o2) == load_word(b, o2),
{
}

/// A word whose four bytes are all zero loads as zero.
pub proof fn lemma_load_zero(b: Seq<u8>, o: int)
    requires
        0 <= o,
        o + 4 <= b.len(),
        b[o] == 0,
        b[o + 1] == 0,
        b[o + 2] == 0,
        b[o + 3] == 0,
    ensures
        load_word(b, o) == 0,
{
    assert((0u8 as u32) | ((0u8 as u32) << 8) | ((0u8 as u32) << 16) | ((0u8 as u32) << 24) == 0)
        by (bit_vector);
}

/// Storing the value zero clears exactly its four bytes.
pub proof fn lemma_store_zero(b: Seq<u8>, o: int)
    requires
        0 <= o,
        o + 4 <= b.len(),
    ensures
        forall|i: int|
            0 <= i < b.len() ==> #[trigger] store_word(b, o, 0)[i] == (if o <= i < o + 4 {
                0u8
            } else {
                b[i]
            }),
{
    lemma_le_byte_zero(0);
    lemma_le_byte_zero(1);
    lemma_le_byte_zero(2);
    lemma_le_byte_zero(3);
}

/// Every little-endian byte of the value zero is zero.
pub proof fn lemma_le_byte_zero(k: int)
    ensures
        le_byte(0, k) == 0,
{
    assert((0u32 & 0xff) as u8 == 0) by (bit_vector);
    assert(((0u32 >> 8) & 0xff) as u8 == 0) by (bit_vector);
    assert(((0u32 >> 16) & 0xff) as u8 == 0) by (bit_vector);
    assert(((0u32 >> 24) & 0xff) as u8 == 0) by (bit_vector);
}

} // verus!
