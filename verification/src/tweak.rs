//! Derivation of a chunk's CBC seed IV from the base IV and the chunk's byte
//! offset: the 8 bytes of the offset, little-endian, are XORed into the IV
//! twice, once over bytes 0..8 and once over bytes 8..16.

use vstd::prelude::*;

verus! {

/// Byte `i % 8` of the little-endian encoding of `offset`, the lane that is
/// XORed into byte `i` of the base IV.
pub open spec fn offset_lane_byte(offset: u64, i: int) -> u8 {
    (offset >> ((8 * (i % 8)) as u64)) as u8
}

/// The IV that seeds CBC decryption of the chunk whose first byte sits at
/// `offset` (relative to the start of the encrypted region).
pub open spec fn tweak_spec(base_iv: Seq<u8>, offset: u64) -> Seq<u8> {
    Seq::new(16, |i: int| base_iv[i] ^ offset_lane_byte(offset, i))
}

/// Computes the tweaked IV for the chunk at byte `offset`.
pub fn tweak(base_iv: &[u8; 16], offset: u64) -> (r: [u8; 16])
    ensures
        r@ == tweak_spec(base_iv@, offset),
{
    let mut r = [0u8; 16];
    let mut i: usize = 0;
    while i < 16
        invariant
            i <= 16,
            r@.len() == 16,
            forall|k: int| 0 <= k < i ==> r@[k] == base_iv@[k] ^ offset_lane_byte(offset, k),
        decreases 16 - i,
    {
        let sh: u64 = ((i % 8) * 8) as u64;
        assert(sh == (8 * ((i as int) % 8)) as u64);
        r[i] = base_iv[i] ^ ((offset >> sh) as u8);
        i = i + 1;
    }
    assert(r@ =~= tweak_spec(base_iv@, offset));
    r
}

/// An offset of zero is the identity tweak: the chunk that starts the
/// encrypted region is seeded with the base IV itself.
pub proof fn lemma_tweak_zero(base_iv: Seq<u8>)
    requires
        base_iv.len() == 16,
    ensures
        tweak_spec(base_iv, 0) == base_iv,
{
    assert forall|i: int| 0 <= i < 16 implies tweak_spec(base_iv, 0)[i] == base_iv[i] by {
        let sh = (8 * (i % 8)) as u64;
        let x = base_iv[i];
        assert((0u64 >> sh) as u8 == 0) by (bit_vector);
        assert(x ^ 0 == x) by (bit_vector);
    }
    assert(tweak_spec(base_iv, 0) =~= base_iv);
}

/// Distinct offsets give distinct tweaked IVs: two different 64-bit offsets
/// differ in some little-endian byte, and that byte lane of the IV then
/// differs too.
pub proof fn lemma_tweak_distinct(base_iv: Seq<u8>, o1: u64, o2: u64)
    requires
        base_iv.len() == 16,
        o1 != o2,
    ensures
        tweak_spec(base_iv, o1) != tweak_spec(base_iv, o2),
{
    assert((o1 >> 0) as u8 != (o2 >> 0) as u8 || (o1 >> 8) as u8 != (o2 >> 8) as u8 || (o1
        >> 16) as u8 != (o2 >> 16) as u8 || (o1 >> 24) as u8 != (o2 >> 24) as u8 || (o1
        >> 32) as u8 != (o2 >> 32) as u8 || (o1 >> 40) as u8 != (o2 >> 40) as u8 || (o1
        >> 48) as u8 != (o2 >> 48) as u8 || (o1 >> 56) as u8 != (o2 >> 56) as u8) by (bit_vector)
        requires
            o1 != o2,
    ;
    assert(exists|i: int| 0 <= i < 8 && offset_lane_byte(o1, i) != offset_lane_byte(o2, i)) by {
        if (o1 >> 0) as u8 != (o2 >> 0) as u8 {
            assert(offset_lane_byte(o1, 0) != offset_lane_byte(o2, 0));
        } else if (o1 >> 8) as u8 != (o2 >> 8) as u8 {
            assert(offset_lane_byte(o1, 1) != offset_lane_byte(o2, 1));
        } else if (o1 >> 16) as u8 != (o2 >> 16) as u8 {
            assert(offset_lane_byte(o1, 2) != offset_lane_byte(o2, 2));
        } else if (o1 >> 24) as u8 != (o2 >> 24) as u8 {
            assert(offset_lane_byte(o1, 3) != offset_lane_byte(o2, 3));
        } else if (o1 >> 32) as u8 != (o2 >> 32) as u8 {
            assert(offset_lane_byte(o1, 4) != offset_lane_byte(o2, 4));
        } else if (o1 >> 40) as u8 != (o2 >> 40) as u8 {
            assert(offset_lane_byte(o1, 5) != offset_lane_byte(o2, 5));
        } else if (o1 >> 48) as u8 != (o2 >> 48) as u8 {
            assert(offset_lane_byte(o1, 6) != offset_lane_byte(o2, 6));
        } else {
            assert(offset_lane_byte(o1, 7) != offset_lane_byte(o2, 7));
        }
    }
    let i = choose|i: int| 0 <= i < 8 && offset_lane_byte(o1, i) != offset_lane_byte(o2, i);
    let b1 = offset_lane_byte(o1, i);
    let b2 = offset_lane_byte(o2, i);
    let x = base_iv[i];
    assert(b1 != b2 ==> x ^ b1 != x ^ b2) by (bit_vector);
    assert(tweak_spec(base_iv, o1)[i] != tweak_spec(base_iv, o2)[i]);
}

} // verus!
