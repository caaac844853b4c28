use cipher::inout::InOutBuf;
use cipher::{BlockDecryptMut, BlockEncryptMut, KeyIvInit};

use vhd_decrypt::cbc128::{decrypt_chunk_mut, encrypt_chunk_mut};
use vhd_decrypt::pipeline::{decrypt_image, decrypt_region, DecryptError, CHUNK_SIZE};
use vhd_decrypt::recover::recover_base_iv;
use vhd_decrypt::tweak::tweak;

const KEY: [u8; 16] = [
    0x2b, 0x7e, 0x15, 0x16, 0x28, 0xae, 0xd2, 0xa6, 0xab, 0xf7, 0x15, 0x88, 0x09, 0xcf, 0x4f,
    0x3c,
];

const NTFS_HEADER: [u8; 16] = [
    0xeb, 0x52, 0x90, 0x4e, 0x54, 0x46, 0x53, 0x20, 0x20, 0x20, 0x20, 0x00, 0x10, 0x01, 0x00,
    0x00,
];

const BASE_IV: [u8; 16] = [
    0xf0, 0xe1, 0xd2, 0xc3, 0xb4, 0xa5, 0x96, 0x87, 0x78, 0x69, 0x5a, 0x4b, 0x3c, 0x2d, 0x1e,
    0x0f,
];

/// Reference CBC encryption straight through the aes and cbc crates.
fn ref_encrypt(buf: &mut [u8], key: &[u8; 16], iv: &[u8; 16]) {
    let mut enc = cbc::Encryptor::<aes::Aes128Enc>::new(key.into(), iv.into());
    let (blocks, _) = InOutBuf::from(&mut *buf).into_chunks();
    enc.encrypt_blocks_inout_mut(blocks);
}

/// Reference CBC decryption straight through the aes and cbc crates.
fn ref_decrypt(buf: &mut [u8], key: &[u8; 16], iv: &[u8; 16]) {
    let mut dec = cbc::Decryptor::<aes::Aes128Dec>::new(key.into(), iv.into());
    let (blocks, _) = InOutBuf::from(&mut *buf).into_chunks();
    dec.decrypt_blocks_inout_mut(blocks);
}

/// The expected tweak, computed byte by byte in the test itself.
fn expected_tweak(base_iv: &[u8; 16], offset: u64) -> [u8; 16] {
    let mut r = [0u8; 16];
    for i in 0..16 {
        r[i] = base_iv[i] ^ ((offset >> ((i % 8) * 8)) as u8);
    }
    r
}

#[test]
fn tweak_zero_is_identity() {
    assert_eq!(tweak(&BASE_IV, 0), BASE_IV);
    let all_zero = [0u8; 16];
    assert_eq!(tweak(&all_zero, 0), all_zero);
}

#[test]
fn tweak_matches_lane_formula() {
    let offset: u64 = 0x0123_4567_89ab_cdef;
    let got = tweak(&BASE_IV, offset);
    assert_eq!(got, expected_tweak(&BASE_IV, offset));
    // The low 8 bytes and the high 8 bytes receive the same encoding.
    for i in 0..8 {
        assert_eq!(got[i] ^ BASE_IV[i], got[i + 8] ^ BASE_IV[i + 8]);
    }
}

#[test]
fn tweak_distinct_offsets_differ() {
    let t1 = tweak(&BASE_IV, CHUNK_SIZE as u64);
    let t2 = tweak(&BASE_IV, 2 * CHUNK_SIZE as u64);
    assert_ne!(t1, t2);
    assert_ne!(t1, BASE_IV);
}

#[test]
fn recover_base_iv_round_trips() {
    // Encrypt one block of the expected header under BASE_IV, then check that
    // the engine recovers exactly that IV from the ciphertext alone, and that
    // a reference decryption of the block with the recovered IV yields the
    // header again.
    let mut block = NTFS_HEADER;
    ref_encrypt(&mut block, &KEY, &BASE_IV);
    let recovered = recover_base_iv(&block, &KEY, &NTFS_HEADER);
    assert_eq!(recovered, BASE_IV);
    let mut check = block;
    ref_decrypt(&mut check, &KEY, &recovered);
    assert_eq!(check, NTFS_HEADER);
}

#[test]
fn recover_base_iv_wrong_key_still_yields_an_iv() {
    // A wrong key is not detectable: recovery still returns 16 bytes, just
    // not the IV the data was encrypted with.
    let mut block = NTFS_HEADER;
    ref_encrypt(&mut block, &KEY, &BASE_IV);
    let mut wrong_key = KEY;
    wrong_key[0] ^= 0xff;
    let recovered = recover_base_iv(&block, &wrong_key, &NTFS_HEADER);
    assert_ne!(recovered, BASE_IV);
}

#[test]
fn chunk_encrypt_decrypt_round_trip() {
    let plaintext: Vec<u8> = (0u16..64).map(|x| (x * 7 % 251) as u8).collect();
    let iv = tweak(&BASE_IV, 4096);
    let mut buf = plaintext.clone();
    encrypt_chunk_mut(&mut buf, &KEY, &iv);
    assert_ne!(buf, plaintext);
    decrypt_chunk_mut(&mut buf, &KEY, &iv);
    assert_eq!(buf, plaintext);
}

#[test]
fn decrypt_chunk_matches_reference() {
    let ciphertext: Vec<u8> = (0u16..256).map(|x| (x as u8).wrapping_mul(31)).collect();
    let iv = tweak(&BASE_IV, 8192);
    let mut lib = ciphertext.clone();
    decrypt_chunk_mut(&mut lib, &KEY, &iv);
    let mut reference = ciphertext.clone();
    ref_decrypt(&mut reference, &KEY, &iv);
    assert_eq!(lib, reference);
    assert_ne!(lib, ciphertext);
}

#[test]
fn chunk_decrypted_in_isolation_matches_full_run() {
    // 2 whole chunks and a short 512-byte tail.
    let total = 2 * CHUNK_SIZE + 512;
    let ciphertext: Vec<u8> = (0..total).map(|x| (x % 253) as u8).collect();
    let full = decrypt_region(&ciphertext, &KEY, &BASE_IV).unwrap();
    assert_eq!(full.len(), total);
    for c in 0..3 {
        let lo = c * CHUNK_SIZE;
        let hi = (lo + CHUNK_SIZE).min(total);
        let mut alone = ciphertext[lo..hi].to_vec();
        let iv = tweak(&BASE_IV, lo as u64);
        decrypt_chunk_mut(&mut alone, &KEY, &iv);
        assert_eq!(&full[lo..hi], &alone[..]);
    }
}

#[test]
fn end_to_end_synthetic_image() {
    // A synthetic 8224-byte region: a header-bearing first block, two whole
    // chunks' worth of data, and 16 leftover bytes. Built by encrypting a
    // known plaintext per chunk with the reference implementation, then
    // decrypted by the engine, which must recover the IV and reproduce the
    // plaintext bit for bit.
    let total = 8224;
    let mut plaintext: Vec<u8> = (0..total).map(|x| (x * 13 % 241) as u8).collect();
    plaintext[..16].copy_from_slice(&NTFS_HEADER);

    let mut ciphertext = plaintext.clone();
    let mut lo = 0;
    while lo < total {
        let hi = (lo + CHUNK_SIZE).min(total);
        let iv = expected_tweak(&BASE_IV, lo as u64);
        ref_encrypt(&mut ciphertext[lo..hi], &KEY, &iv);
        lo = hi;
    }
    assert_eq!(ciphertext.len(), 8224);

    let (recovered, image) = decrypt_image(&ciphertext, &KEY, &NTFS_HEADER).unwrap();
    assert_eq!(recovered, BASE_IV);
    assert_eq!(image.len(), 8224);
    assert_eq!(image, plaintext);

    // Reference decryption computed independently, chunk by chunk.
    let mut reference = ciphertext.clone();
    let mut lo = 0;
    while lo < total {
        let hi = (lo + CHUNK_SIZE).min(total);
        let iv = expected_tweak(&recovered, lo as u64);
        ref_decrypt(&mut reference[lo..hi], &KEY, &iv);
        lo = hi;
    }
    assert_eq!(image, reference);
}

#[test]
fn region_of_exactly_one_chunk() {
    // A region of exactly one chunk decrypts as a single CBC run seeded with
    // the base IV itself: one chunk, no short tail.
    let ciphertext: Vec<u8> = (0..CHUNK_SIZE).map(|x| (x % 251) as u8).collect();
    let out = decrypt_region(&ciphertext, &KEY, &BASE_IV).unwrap();
    let mut reference = ciphertext.clone();
    ref_decrypt(&mut reference, &KEY, &BASE_IV);
    assert_eq!(out, reference);
    assert_eq!(out.len(), CHUNK_SIZE);
}

#[test]
fn five_byte_region_fails_cleanly() {
    let region = vec![1u8, 2, 3, 4, 5];
    assert_eq!(
        decrypt_image(&region, &KEY, &NTFS_HEADER),
        Err(DecryptError::InsufficientData)
    );
    assert_eq!(
        decrypt_region(&region, &KEY, &BASE_IV),
        Err(DecryptError::MisalignedLength)
    );
}

#[test]
fn misaligned_region_fails_cleanly() {
    let region: Vec<u8> = (0..24).map(|x| x as u8).collect();
    assert_eq!(
        decrypt_image(&region, &KEY, &NTFS_HEADER),
        Err(DecryptError::MisalignedLength)
    );
}

#[test]
fn empty_region_decrypts_to_nothing() {
    let region: Vec<u8> = Vec::new();
    assert_eq!(decrypt_region(&region, &KEY, &BASE_IV).unwrap(), Vec::new());
}
