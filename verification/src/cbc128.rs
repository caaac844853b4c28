//! Mathematical model of AES-128-CBC decryption and the executable chunk
//! (de/en)cryption primitives built on the `aes` and `cbc` crates.

use vstd::prelude::*;

use cipher::inout::InOutBuf;
use cipher::{BlockDecryptMut, BlockEncryptMut, KeyIvInit};

verus! {

/// What AES-128 block decryption (`aes::Aes128Dec`) returns for one 16-byte
/// block under a 16-byte key. The permutation itself is not written out here;
/// it is a pure function of the key and the block, named so that contracts
/// can speak of it.
pub uninterp spec fn aes128_decrypt_block(key: Seq<u8>, block: Seq<u8>) -> Seq<u8>;

/// Byte-wise XOR of two sequences; the result has the length of `a`.
pub open spec fn xor_bytes(a: Seq<u8>, b: Seq<u8>) -> Seq<u8> {
    Seq::new(a.len(), |i: int| a[i] ^ b[i])
}

/// The 16-byte block with index `b` of a buffer.
pub open spec fn block_of(data: Seq<u8>, b: int) -> Seq<u8> {
    data.subrange(16 * b, 16 * b + 16)
}

/// The value XORed into the AES decryption of block `b` under CBC chaining:
/// the previous ciphertext block, or the IV for the very first block.
pub open spec fn cbc_chain_block(iv: Seq<u8>, ciphertext: Seq<u8>, b: int) -> Seq<u8> {
    if b == 0 {
        iv
    } else {
        block_of(ciphertext, b - 1)
    }
}

/// CBC decryption of a whole buffer of 16-byte blocks: byte `j` of the
/// plaintext is byte `j % 16` of the AES decryption of block `j / 16`, XORed
/// with the matching byte of the chain value for that block. No padding is
/// interpreted or removed.
pub open spec fn cbc_decrypt(key: Seq<u8>, iv: Seq<u8>, ciphertext: Seq<u8>) -> Seq<u8> {
    Seq::new(
        ciphertext.len(),
        |j: int|
            (aes128_decrypt_block(key, block_of(ciphertext, j / 16))[j % 16] ^ cbc_chain_block(
                iv,
                ciphertext,
                j / 16,
            )[j % 16]),
    )
}

/// Relies on `cbc::Decryptor<aes::Aes128Dec>`: CBC-mode decryption over
/// AES-128, where each plaintext block is the AES-128 decryption of its
/// ciphertext block XORed with the previous ciphertext block, the IV standing
/// in for the block before the first. A trailing partial block would be left
/// untouched, so callers must pass a whole number of blocks.
#[verifier::external_body]
fn cbc_decrypt_blocks(buf: &mut Vec<u8>, key: &[u8; 16], iv: &[u8; 16])
    requires
        old(buf).len() % 16 == 0,
    ensures
        final(buf)@ == cbc_decrypt(key@, iv@, old(buf)@),
        old(buf).len() == 16 ==> final(buf)@ == xor_bytes(
            aes128_decrypt_block(key@, old(buf)@),
            iv@,
        ),
{
    let mut decryptor = cbc::Decryptor::<aes::Aes128Dec>::new(key.into(), iv.into());
    let (blocks, _) = InOutBuf::from(buf.as_mut_slice()).into_chunks();
    decryptor.decrypt_blocks_inout_mut(blocks);
}

/// Relies on `cbc::Encryptor<aes::Aes128Enc>`: CBC-mode encryption over
/// AES-128, and on AES-128 encryption and decryption being inverse
/// permutations of 16-byte blocks, so that CBC decryption under the same key
/// and IV restores the buffer.
#[verifier::external_body]
fn cbc_encrypt_blocks(buf: &mut Vec<u8>, key: &[u8; 16], iv: &[u8; 16])
    requires
        old(buf).len() % 16 == 0,
    ensures
        final(buf)@.len() == old(buf)@.len(),
        cbc_decrypt(key@, iv@, final(buf)@) == old(buf)@,
{
    let mut encryptor = cbc::Encryptor::<aes::Aes128Enc>::new(key.into(), iv.into());
    let (blocks, _) = InOutBuf::from(buf.as_mut_slice()).into_chunks();
    encryptor.encrypt_blocks_inout_mut(blocks);
}

/// Decrypts one chunk of ciphertext in place with AES-128-CBC, seeded with
/// `iv` and with no padding removal. The buffer must hold a whole number of
/// 16-byte blocks.
pub fn decrypt_chunk_mut(buf: &mut Vec<u8>, key: &[u8; 16], iv: &[u8; 16])
    requires
        old(buf).len() % 16 == 0,
    ensures
        final(buf)@ == cbc_decrypt(key@, iv@, old(buf)@),
{
    cbc_decrypt_blocks(buf, key, iv);
}

/// Encrypts one chunk in place with the same AES-128-CBC construction the
/// decryptor undoes: decrypting the result with the identical key and IV
/// restores the buffer it started from, byte for byte.
pub fn encrypt_chunk_mut(buf: &mut Vec<u8>, key: &[u8; 16], iv: &[u8; 16])
    requires
        old(buf).len() % 16 == 0,
    ensures
        final(buf)@.len() == old(buf)@.len(),
        cbc_decrypt(key@, iv@, final(buf)@) == old(buf)@,
{
    cbc_encrypt_blocks(buf, key, iv);
}

} // verus!
