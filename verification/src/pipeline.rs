//! The decryption pipeline over a whole encrypted region: the region is cut
//! into fixed-size chunks, every chunk is CBC-decrypted independently with its
//! own offset-tweaked IV, and the plaintexts are laid out in order. The first
//! chunk starts at offset zero, so the 16 bytes that served IV recovery are
//! decrypted again as part of it.

use vstd::prelude::*;

use crate::cbc128::{cbc_decrypt, decrypt_chunk_mut};
use crate::recover::{recover_base_iv, recover_iv_spec};
use crate::tweak::{tweak, tweak_spec};

verus! {

/// Size of one chunk of ciphertext: 256 AES blocks.
pub const CHUNK_SIZE: usize = 4096;

/// Why a region cannot be decrypted.
#[derive(Clone, Copy, Debug, PartialEq, Eq, Structural)]
pub enum DecryptError {
    /// The region holds fewer than the 16 bytes that IV recovery reads.
    InsufficientData,
    /// The region's length is not a multiple of the 16-byte cipher block.
    MisalignedLength,
}

/// Where the chunk with index `c` ends in a region of `len` bytes: one whole
/// chunk below the end, else at the end (the final chunk may be short).
pub open spec fn chunk_end(len: int, c: int) -> int {
    if 4096 * c + 4096 <= len {
        4096 * c + 4096
    } else {
        len
    }
}

/// The ciphertext of the chunk with index `c`.
pub open spec fn chunk_of(ciphertext: Seq<u8>, c: int) -> Seq<u8> {
    ciphertext.subrange(4096 * c, chunk_end(ciphertext.len() as int, c))
}

/// Decryption of a whole region: byte `j` of the plaintext is byte `j % 4096`
/// of the CBC decryption of chunk `j / 4096`, seeded with the IV tweaked by
/// that chunk's start offset. Chaining state never crosses a chunk boundary.
pub open spec fn region_decrypt(key: Seq<u8>, base_iv: Seq<u8>, ciphertext: Seq<u8>) -> Seq<u8> {
    Seq::new(
        ciphertext.len(),
        |j: int|
            cbc_decrypt(
                key,
                tweak_spec(base_iv, (4096 * (j / 4096)) as u64),
                chunk_of(ciphertext, j / 4096),
            )[j % 4096],
    )
}

/// Decrypts a whole encrypted region chunk by chunk. Succeeds on every region
/// whose length is a multiple of 16 (the empty region included) and rejects
/// every other length, since CBC cannot decrypt a trailing partial block.
pub fn decrypt_region(ciphertext: &Vec<u8>, key: &[u8; 16], base_iv: &[u8; 16]) -> (r: Result<
    Vec<u8>,
    DecryptError,
>)
    ensures
        ciphertext@.len() % 16 == 0 ==> (r matches Ok(plain) && plain@ == region_decrypt(
            key@,
            base_iv@,
            ciphertext@,
        )),
        ciphertext@.len() % 16 != 0 ==> (r matches Err(e) && e == DecryptError::MisalignedLength),
{
    let n = ciphertext.len();
    if n % 16 != 0 {
        return Err(DecryptError::MisalignedLength);
    }
    let ghost region = region_decrypt(key@, base_iv@, ciphertext@);
    let mut out: Vec<u8> = Vec::new();
    let mut pos: usize = 0;
    while pos < n
        invariant
            n == ciphertext@.len(),
            n % 16 == 0,
            pos <= n,
            pos % 16 == 0,
            pos % 4096 == 0 || pos == n,
            region == region_decrypt(key@, base_iv@, ciphertext@),
            out@ == region.take(pos as int),
        decreases n - pos,
    {
        let len = if n - pos >= 4096 {
            4096
        } else {
            n - pos
        };
        let end = pos + len;
        let mut chunk: Vec<u8> = Vec::new();
        let mut i: usize = pos;
        while i < end
            invariant
                pos <= i <= end <= n,
                n == ciphertext@.len(),
                chunk@ == ciphertext@.subrange(pos as int, i as int),
            decreases end - i,
        {
            chunk.push(ciphertext[i]);
            i = i + 1;
        }
        let iv = tweak(base_iv, pos as u64);
        decrypt_chunk_mut(&mut chunk, key, &iv);
        proof {
            let ct = ciphertext@;
            let c = pos as int / 4096;
            assert(4096 * c == pos as int) by (nonlinear_arith)
                requires
                    pos as int % 4096 == 0,
                    c == pos as int / 4096,
                    pos as int >= 0,
            ;
            assert(chunk_end(n as int, c) == end as int);
            assert(chunk_of(ct, c) =~= ct.subrange(pos as int, end as int));
            assert((4096 * c) as u64 == pos as u64);
            assert forall|j: int| pos as int <= j < end as int implies region[j] == chunk@[j
                - pos as int] by {
                assert(j / 4096 == c && j % 4096 == j - 4096 * c) by (nonlinear_arith)
                    requires
                        4096 * c <= j < 4096 * c + 4096,
                ;
            }
            assert(out@ + chunk@ =~= region.take(end as int));
        }
        out.append(&mut chunk);
        pos = end;
    }
    assert(out@ =~= region);
    Ok(out)
}

/// The full engine over an in-memory region: recovers the base IV from the
/// first 16 bytes by the known-plaintext attack against `header`, then
/// decrypts the whole region (those 16 bytes again included) chunk by chunk.
/// Returns the recovered IV beside the plaintext, which is byte-for-byte the
/// virtual disk image and exactly as long as the region.
pub fn decrypt_image(region: &Vec<u8>, key: &[u8; 16], header: &[u8; 16]) -> (r: Result<
    ([u8; 16], Vec<u8>),
    DecryptError,
>)
    ensures
        region@.len() < 16 ==> (r matches Err(e) && e == DecryptError::InsufficientData),
        region@.len() >= 16 && region@.len() % 16 != 0 ==> (r matches Err(e) && e
            == DecryptError::MisalignedLength),
        region@.len() >= 16 && region@.len() % 16 == 0 ==> (r matches Ok(p) && p.0@
            == recover_iv_spec(key@, region@.subrange(0, 16), header@) && p.1@ == region_decrypt(
            key@,
            p.0@,
            region@,
        ) && p.1@.len() == region@.len()),
{
    if region.len() < 16 {
        return Err(DecryptError::InsufficientData);
    }
    if region.len() % 16 != 0 {
        return Err(DecryptError::MisalignedLength);
    }
    let mut first_block = [0u8; 16];
    let mut i: usize = 0;
    while i < 16
        invariant
            i <= 16,
            region@.len() >= 16,
            first_block@.len() == 16,
            forall|k: int| 0 <= k < i ==> first_block@[k] == region@[k],
        decreases 16 - i,
    {
        first_block[i] = region[i];
        i = i + 1;
    }
    assert(first_block@ =~= region@.subrange(0, 16));
    let base_iv = recover_base_iv(&first_block, key, header);
    match decrypt_region(region, key, &base_iv) {
        Ok(plain) => Ok((base_iv, plain)),
        Err(e) => Err(e),
    }
}

/// Chunk independence: the slice of the full region decryption that covers
/// chunk `c` equals the CBC decryption of that chunk alone, seeded with the
/// IV tweaked by the chunk's own start offset. No dependency on other chunks'
/// ciphertext crosses a chunk boundary.
pub proof fn lemma_chunk_independence(key: Seq<u8>, base_iv: Seq<u8>, ciphertext: Seq<u8>, c: int)
    requires
        0 <= c,
        4096 * c < ciphertext.len(),
    ensures
        region_decrypt(key, base_iv, ciphertext).subrange(
            4096 * c,
            chunk_end(ciphertext.len() as int, c),
        ) == cbc_decrypt(key, tweak_spec(base_iv, (4096 * c) as u64), chunk_of(ciphertext, c)),
{
    let len = ciphertext.len() as int;
    let lhs = region_decrypt(key, base_iv, ciphertext).subrange(4096 * c, chunk_end(len, c));
    let rhs = cbc_decrypt(key, tweak_spec(base_iv, (4096 * c) as u64), chunk_of(ciphertext, c));
    assert forall|d: int| 0 <= d < chunk_end(len, c) - 4096 * c implies lhs[d] == rhs[d] by {
        let j = 4096 * c + d;
        assert(j / 4096 == c && j % 4096 == d) by (nonlinear_arith)
            requires
                j == 4096 * c + d,
                0 <= d < 4096,
        ;
    }
    assert(lhs =~= rhs);
}

} // verus!
