//! Conversion of raw interleaved little-endian 32-bit PCM bytes into
//! individual samples. A sample is carried as the 32 raw bits of the
//! IEEE-754 single-precision value the device produced; interpreting the
//! bits is left to the unverified edge.

use vstd::prelude::*;

verus! {

/// The value of one little-endian 32-bit group.
pub open spec fn le_word(b0: u8, b1: u8, b2: u8, b3: u8) -> u32 {
    (b0 + b1 * 0x100 + b2 * 0x1_0000 + b3 * 0x100_0000) as u32
}

/// The `i`-th sample encoded in `bytes`: the `i`-th complete 4-byte
/// little-endian group.
pub open spec fn sample_at(bytes: Seq<u8>, i: int) -> u32 {
    le_word(bytes[4 * i], bytes[4 * i + 1], bytes[4 * i + 2], bytes[4 * i + 3])
}

/// Converts every complete 4-byte little-endian group of `bytes` into one
/// sample, in order. A trailing partial group (1 to 3 bytes) is discarded.
pub fn samples_from_le_bytes(bytes: &Vec<u8>) -> (samples: Vec<u32>)
    ensures
        samples@.len() == bytes@.len() / 4,
        forall|i: int| 0 <= i < samples@.len() ==> samples@[i] == sample_at(bytes@, i),
{
    let len: usize = bytes.len();
    let n: usize = len / 4;
    let mut samples: Vec<u32> = Vec::new();
    let mut k: usize = 0;
    while k < n
        invariant
            len == bytes@.len(),
            n == bytes@.len() / 4,
            4 * n <= len,
            k <= n,
            samples@.len() == k,
            forall|i: int| 0 <= i < k ==> samples@[i] == sample_at(bytes@, i),
        decreases n - k,
    {
        let b0 = bytes[4 * k];
        let b1 = bytes[4 * k + 1];
        let b2 = bytes[4 * k + 2];
        let b3 = bytes[4 * k + 3];
        let word: u32 = b0 as u32 + (b1 as u32) * 0x100 + (b2 as u32) * 0x1_0000
            + (b3 as u32) * 0x100_0000;
        samples.push(word);
        k = k + 1;
    }
    samples
}

} // verus!
