//! Capture buffer sizing: how many bytes one dwell needs, padded to whole
//! transfer blocks.

use vstd::prelude::*;

verus! {

/// Size of one transfer block of the receiver, in bytes.
pub const BLOCK_BYTES: usize = 512;

/// The longest capture that the receiver delivers in one read: it takes the
/// length of a read as a signed 32-bit integer.
pub const MAX_CAPTURE_BYTES: usize = 0x7fff_ffff;

/// `bytes` rounded up to a whole number of transfer blocks.
pub open spec fn padded(bytes: int) -> int {
    (bytes + 511) / 512 * 512
}

/// Bytes needed to hold `samples` complex samples (two bytes each), padded to
/// whole transfer blocks.
pub open spec fn aligned_buffer_size(samples: int) -> int {
    padded(2 * samples)
}

/// A capture buffer holds all its samples, is less than one block longer than
/// they are, and is made of whole blocks; so its length is even.
pub proof fn lemma_aligned_buffer_size(samples: int)
    requires
        0 <= samples,
    ensures
        2 * samples <= aligned_buffer_size(samples) < 2 * samples + 512,
        aligned_buffer_size(samples) % 512 == 0,
        aligned_buffer_size(samples) % 2 == 0,
{
}

/// Computes the capture buffer size for `samples` complex samples.
pub fn calculate_aligned_buffer_size(samples: usize) -> (bytes: usize)
    requires
        aligned_buffer_size(samples as int) <= usize::MAX,
    ensures
        bytes == aligned_buffer_size(samples as int),
{
    let blocks: usize = samples / 256;
    let rest: usize = samples % 256;
    if rest == 0 {
        blocks * BLOCK_BYTES
    } else {
        (blocks + 1) * BLOCK_BYTES
    }
}

/// The number of complex samples that the receiver delivers in `dwell_ms`
/// milliseconds at `sample_rate` samples a second, a started sample counting
/// as a whole one.
pub open spec fn samples_per_dwell(dwell_ms: int, sample_rate: int) -> int {
    (dwell_ms * sample_rate + 999) / 1000
}

/// The length in bytes of the capture of one dwell.
pub open spec fn capture_bytes(dwell_ms: int, sample_rate: int) -> int {
    aligned_buffer_size(samples_per_dwell(dwell_ms, sample_rate))
}

/// Computes the length in bytes of the capture of one dwell, or nothing if
/// the receiver cannot deliver a capture of that length in one read.
pub fn capture_len(dwell_ms: usize, sample_rate: usize) -> (len: Option<usize>)
    ensures
        len == if capture_bytes(dwell_ms as int, sample_rate as int) <= MAX_CAPTURE_BYTES {
            Some(capture_bytes(dwell_ms as int, sample_rate as int) as usize)
        } else {
            None
        },
{
    assert(0 <= dwell_ms * sample_rate <= 0xffff_ffff_ffff_ffff * 0xffff_ffff_ffff_ffff)
        by (nonlinear_arith)
        requires
            0 <= dwell_ms <= 0xffff_ffff_ffff_ffff,
            0 <= sample_rate <= 0xffff_ffff_ffff_ffff,
    ;
    let product: u128 = (dwell_ms as u128) * (sample_rate as u128);
    let samples: u128 = (product + 999) / 1000;
    if samples <= 0x3fff_ff00 {
        Some(calculate_aligned_buffer_size(samples as usize))
    } else {
        None
    }
}

} // verus!
