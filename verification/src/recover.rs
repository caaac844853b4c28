//! Known-plaintext recovery of the base IV. CBC decryption of the first
//! ciphertext block is `aes_decrypt(key, block) XOR iv`, so decrypting that
//! block with a zero IV yields `aes_decrypt(key, block)` itself, and XORing
//! the expected plaintext signature into it isolates the IV the container was
//! encrypted with.

use vstd::prelude::*;

use crate::cbc128::{aes128_decrypt_block, cbc_decrypt, decrypt_chunk_mut};

verus! {

/// The base IV that makes the first ciphertext block decrypt to `header`:
/// byte-wise XOR of the AES-128 decryption of that block with `header`.
pub open spec fn recover_iv_spec(key: Seq<u8>, first_block: Seq<u8>, header: Seq<u8>) -> Seq<u8> {
    Seq::new(16, |i: int| aes128_decrypt_block(key, first_block)[i] ^ header[i])
}

/// Derives the base IV from the first 16-byte ciphertext block of the
/// encrypted region and the plaintext signature expected there. The second
/// clause is the recovery round trip: CBC-decrypting that same block with the
/// recovered IV yields exactly the expected header. A wrong key or wrong
/// header still yields an IV; nothing here can detect that, and the output is
/// then garbage rather than an error.
pub fn recover_base_iv(first_block: &[u8; 16], key: &[u8; 16], header: &[u8; 16]) -> (r: [u8; 16])
    ensures
        r@ == recover_iv_spec(key@, first_block@, header@),
        cbc_decrypt(key@, r@, first_block@) == header@,
{
    let zero_iv = [0u8; 16];
    let mut decoy: Vec<u8> = Vec::new();
    let mut i: usize = 0;
    while i < 16
        invariant
            i <= 16,
            decoy@ == first_block@.take(i as int),
        decreases 16 - i,
    {
        decoy.push(first_block[i]);
        i = i + 1;
    }
    assert(decoy@ =~= first_block@);
    decrypt_chunk_mut(&mut decoy, key, &zero_iv);
    let ghost aes = aes128_decrypt_block(key@, first_block@);
    assert forall|k: int| 0 <= k < 16 implies decoy@[k] == aes[k] by {
        let a = aes[k];
        assert(a ^ 0 == a) by (bit_vector);
    }
    let mut r = [0u8; 16];
    let mut j: usize = 0;
    while j < 16
        invariant
            j <= 16,
            decoy@.len() == 16,
            forall|k: int| 0 <= k < 16 ==> decoy@[k] == aes128_decrypt_block(
                key@,
                first_block@,
            )[k],
            forall|k: int| 0 <= k < j ==> r@[k] == recover_iv_spec(key@, first_block@, header@)[k],
        decreases 16 - j,
    {
        r[j] = decoy[j] ^ header[j];
        j = j + 1;
    }
    assert(r@ =~= recover_iv_spec(key@, first_block@, header@));
    proof {
        let plain = cbc_decrypt(key@, r@, first_block@);
        assert forall|k: int| 0 <= k < 16 implies plain[k] == header@[k] by {
            assert(crate::cbc128::block_of(first_block@, 0) =~= first_block@);
            let a = aes128_decrypt_block(key@, first_block@)[k];
            let h = header@[k];
            assert(a ^ (a ^ h) == h) by (bit_vector);
        }
        assert(plain =~= header@);
    }
    r
}

} // verus!
