//! Decryption engine for a disk-image container encrypted with AES-128 in a
//! chunked, offset-tweaked CBC mode. The base IV is not stored in the
//! container; it is recovered by a known-plaintext attack against the
//! filesystem signature expected at the start of the decrypted region. Each
//! fixed-size chunk is then decrypted independently, seeded with an IV derived
//! from the base IV and the chunk's byte offset.

pub mod cbc128;
pub mod keyparse;
pub mod pipeline;
pub mod presets;
pub mod recover;
pub mod tweak;

use vstd::prelude::*;

verus! {

/// A 16-byte AES-128 key, and also the shape of an IV for the same cipher.
pub type KeyIv = [u8; 16];

} // verus!

