//! Sample ingest: raw receiver bytes to centred samples, kept exact.
//!
//! The receiver delivers unsigned bytes, interleaved as real part, imaginary
//! part, real part, and so on. A byte `b` stands for the sample value
//! `(b - 127) / 127`. This module never divides: it keeps the numerators, as
//! integers, and the caller knows the divisor. After [`normalize`] the divisor
//! is 127. Removing the mean from `n` complex samples multiplies every
//! numerator and the divisor by `n`, so that the result stays an integer.

use vstd::prelude::*;
use crate::error::ValidationError;
use crate::sizing::MAX_CAPTURE_BYTES;

verus! {

/// The byte value that stands for a sample of zero, which is also the divisor
/// of a normalized sample.
pub const UNIT: i64 = 127;

/// The numerator of the sample that `byte` stands for.
pub open spec fn centered(byte: u8) -> int {
    byte as int - 127
}

/// The numerators of all samples of a capture.
pub open spec fn centered_all(bytes: Seq<u8>) -> Seq<i64> {
    Seq::new(bytes.len(), |i: int| centered(bytes[i]) as i64)
}

/// What the length check of [`normalize`] finds for a capture of `source`
/// bytes and a sample buffer of `target` values.
pub open spec fn length_check(source: nat, target: nat) -> Result<(), ValidationError> {
    if source % 2 != 0 {
        Err(ValidationError::OddLength)
    } else if source != target {
        Err(ValidationError::SizeMismatch)
    } else {
        Ok(())
    }
}

/// Centres a capture: writes the numerator of every sample of `rtl_buffer`
/// into `normalized`, in the same order. The divisor of the result is
/// [`UNIT`].
///
/// Fails, and writes nothing, if the capture holds an odd number of bytes or
/// if `normalized` has another length than the capture.
pub fn normalize(rtl_buffer: &Vec<u8>, normalized: &mut [i64]) -> (outcome: Result<
    (),
    ValidationError,
>)
    ensures
        outcome == length_check(rtl_buffer@.len(), old(normalized)@.len()),
        outcome is Ok ==> final(normalized)@ == centered_all(rtl_buffer@),
        outcome is Err ==> final(normalized)@ == old(normalized)@,
{
    let n: usize = rtl_buffer.len();
    if n % 2 != 0 {
        return Err(ValidationError::OddLength);
    }
    if normalized.len() != n {
        return Err(ValidationError::SizeMismatch);
    }
    let mut i: usize = 0;
    while i < n
        invariant
            i <= n,
            n == rtl_buffer@.len(),
            n == normalized@.len(),
            forall|k: int| 0 <= k < i ==> normalized@[k] == centered(rtl_buffer@[k]),
        decreases n - i,
    {
        normalized[i] = rtl_buffer[i] as i64 - UNIT;
        i += 1;
    }
    Ok(())
}

/// The sum of the first `pairs` components of one kind in an interleaved
/// buffer: of the real parts if `phase` is 0, of the imaginary parts if it is 1.
pub open spec fn component_sum(s: Seq<i64>, phase: int, pairs: nat) -> int
    decreases pairs,
{
    if pairs == 0 {
        0
    } else {
        component_sum(s, phase, (pairs - 1) as nat) + s[2 * (pairs - 1) + phase]
    }
}

/// The value at place `i` once the mean is removed from a buffer of `n`
/// complex samples, multiplied by `n`: `n * s[i]` less the sum of the
/// components of the same kind.
pub open spec fn dc_value(s: Seq<i64>, i: int) -> int {
    (s.len() / 2) * s[i] - component_sum(s, i % 2, s.len() / 2)
}

/// Whether every value of the corrected buffer fits in 64 bits.
pub open spec fn dc_fits(s: Seq<i64>) -> bool {
    forall|i: int| 0 <= i < s.len() ==> i64::MIN <= #[trigger] dc_value(s, i) <= i64::MAX
}

/// The buffer with the mean of its real parts removed from every real part,
/// and likewise for the imaginary parts, all multiplied by the number of
/// complex samples.
pub open spec fn dc_corrected(s: Seq<i64>) -> Seq<i64> {
    Seq::new(s.len(), |i: int| dc_value(s, i) as i64)
}

/// What [`dc_correction`] finds wrong with a buffer, if anything.
pub open spec fn dc_check(s: Seq<i64>) -> Result<(), ValidationError> {
    if s.len() % 2 != 0 {
        Err(ValidationError::OddLength)
    } else if !dc_fits(s) {
        Err(ValidationError::OutOfRange)
    } else {
        Ok(())
    }
}

proof fn lemma_product_bound(n: int, d: int)
    by (nonlinear_arith)
    requires
        0 <= n <= 0x7fff_ffff_ffff_ffff,
        -0x8000_0000_0000_0000 <= d <= 0x7fff_ffff_ffff_ffff,
    ensures
        -0x4000_0000_0000_0000_0000_0000_0000_0000 <= n * d
            <= 0x4000_0000_0000_0000_0000_0000_0000_0000,
        -0x8000_0000_0000_0000 * n <= n * d <= 0x8000_0000_0000_0000 * n,
{
}

/// Sums the real and the imaginary parts of an interleaved buffer.
fn component_sums(data: &[i64]) -> (sums: (i128, i128))
    requires
        data@.len() % 2 == 0,
    ensures
        sums.0 == component_sum(data@, 0, data@.len() / 2),
        sums.1 == component_sum(data@, 1, data@.len() / 2),
        -0x8000_0000_0000_0000 * (data@.len() / 2) <= sums.0 <= 0x8000_0000_0000_0000 * (
        data@.len() / 2),
        -0x8000_0000_0000_0000 * (data@.len() / 2) <= sums.1 <= 0x8000_0000_0000_0000 * (
        data@.len() / 2),
{
    let pairs: usize = data.len() / 2;
    let mut re: i128 = 0;
    let mut im: i128 = 0;
    let mut k: usize = 0;
    while k < pairs
        invariant
            k <= pairs,
            2 * pairs == data@.len(),
            data@.len() <= usize::MAX,
            re == component_sum(data@, 0, k as nat),
            im == component_sum(data@, 1, k as nat),
            -0x8000_0000_0000_0000 * k <= re <= 0x8000_0000_0000_0000 * k,
            -0x8000_0000_0000_0000 * k <= im <= 0x8000_0000_0000_0000 * k,
        decreases pairs - k,
    {
        re = re + data[2 * k] as i128;
        im = im + data[2 * k + 1] as i128;
        k += 1;
    }
    (re, im)
}

/// Removes the mean from an interleaved buffer, in place; see
/// [`dc_correction`].
fn dc_correct(data: &mut [i64]) -> (outcome: Result<(), ValidationError>)
    ensures
        outcome == dc_check(old(data)@),
        outcome is Ok ==> final(data)@ == dc_corrected(old(data)@),
        outcome is Err ==> final(data)@ == old(data)@,
{
    let len: usize = data.len();
    if len % 2 != 0 {
        return Err(ValidationError::OddLength);
    }
    let pairs: i128 = (len / 2) as i128;
    let (re, im) = component_sums(data);
    let ghost before = data@;
    let mut i: usize = 0;
    while i < len
        invariant
            i <= len,
            len == data@.len(),
            len % 2 == 0,
            data@ == before,
            pairs == len / 2,
            re == component_sum(before, 0, before.len() / 2),
            im == component_sum(before, 1, before.len() / 2),
            -0x8000_0000_0000_0000 * pairs <= re <= 0x8000_0000_0000_0000 * pairs,
            -0x8000_0000_0000_0000 * pairs <= im <= 0x8000_0000_0000_0000 * pairs,
            forall|k: int| 0 <= k < i ==> i64::MIN <= #[trigger] dc_value(before, k) <= i64::MAX,
        decreases len - i,
    {
        proof {
            lemma_product_bound(pairs as int, data@[i as int] as int);
        }
        let sum: i128 = if i % 2 == 0 {
            re
        } else {
            im
        };
        let value: i128 = pairs * (data[i] as i128) - sum;
        assert(value == dc_value(before, i as int));
        if value < i64::MIN as i128 || value > i64::MAX as i128 {
            return Err(ValidationError::OutOfRange);
        }
        i += 1;
    }
    let mut j: usize = 0;
    while j < len
        invariant
            j <= len,
            len == data@.len(),
            len == before.len(),
            len % 2 == 0,
            pairs == len / 2,
            dc_fits(before),
            re == component_sum(before, 0, before.len() / 2),
            im == component_sum(before, 1, before.len() / 2),
            -0x8000_0000_0000_0000 * pairs <= re <= 0x8000_0000_0000_0000 * pairs,
            -0x8000_0000_0000_0000 * pairs <= im <= 0x8000_0000_0000_0000 * pairs,
            forall|k: int| 0 <= k < j ==> data@[k] == dc_value(before, k),
            forall|k: int| j <= k < len ==> data@[k] == before[k],
        decreases len - j,
    {
        proof {
            lemma_product_bound(pairs as int, data@[j as int] as int);
        }
        let sum: i128 = if j % 2 == 0 {
            re
        } else {
            im
        };
        let value: i128 = pairs * (data[j] as i128) - sum;
        data[j] = value as i64;
        j += 1;
    }
    Ok(())
}

/// Removes the constant bias of the receiver from a buffer of `n` complex
/// samples, in place: subtracts the mean of the real parts from every real
/// part and the mean of the imaginary parts from every imaginary part.
///
/// To stay exact, every value comes out multiplied by `n`, so the divisor of
/// the buffer grows by the factor `n` as well.
///
/// Fails, and changes nothing, if the buffer holds an odd number of values
/// or if a corrected value does not fit in 64 bits.
pub fn dc_correction(data: &mut Vec<i64>) -> (outcome: Result<(), ValidationError>)
    ensures
        outcome == dc_check(old(data)@),
        outcome is Ok ==> final(data)@ == dc_corrected(old(data)@),
        outcome is Err ==> final(data)@ == old(data)@,
{
    dc_correct(data.as_mut_slice())
}

/// What [`rtl_import`] finds wrong with its arguments, if anything: for a
/// capture of `source` bytes of which the first `buff_len` are to be imported
/// into a buffer of `target` values.
pub open spec fn import_check(source: nat, buff_len: nat, target: nat) -> Result<
    (),
    ValidationError,
> {
    if buff_len % 2 != 0 {
        Err(ValidationError::OddLength)
    } else if buff_len > source || target != buff_len {
        Err(ValidationError::SizeMismatch)
    } else if buff_len > MAX_CAPTURE_BYTES {
        Err(ValidationError::OutOfRange)
    } else {
        Ok(())
    }
}

/// The samples of a capture, centred and with the mean removed.
pub open spec fn imported(bytes: Seq<u8>) -> Seq<i64> {
    dc_corrected(centered_all(bytes))
}

proof fn lemma_centered_sum_bound(bytes: Seq<u8>, phase: int, pairs: nat)
    requires
        0 <= phase <= 1,
        2 * pairs <= bytes.len(),
    ensures
        -127 * pairs <= component_sum(centered_all(bytes), phase, pairs) <= 128 * pairs,
    decreases pairs,
{
    if pairs > 0 {
        lemma_centered_sum_bound(bytes, phase, (pairs - 1) as nat);
    }
}

/// Removing the mean from a capture that the receiver can deliver in one read
/// never leaves the 64-bit range.
pub proof fn lemma_capture_fits(bytes: Seq<u8>)
    requires
        bytes.len() % 2 == 0,
        bytes.len() <= MAX_CAPTURE_BYTES,
    ensures
        dc_fits(centered_all(bytes)),
{
    let c = centered_all(bytes);
    let n = (c.len() / 2) as nat;
    lemma_centered_sum_bound(bytes, 0, n);
    lemma_centered_sum_bound(bytes, 1, n);
    assert forall|i: int| 0 <= i < c.len() implies i64::MIN <= #[trigger] dc_value(c, i)
        <= i64::MAX by {
        assert(-127 * n <= n * c[i] <= 128 * n) by (nonlinear_arith)
            requires
                -127 <= c[i] <= 128,
                0 <= n,
        ;
    }
}

/// Imports the first `buff_len` bytes of a capture into `complex`: centres
/// them as [`normalize`] does, then removes the mean as [`dc_correction`]
/// does. With `n = buff_len / 2` complex samples, the divisor of the result
/// is `127 * n`.
///
/// Fails, and writes nothing, if `buff_len` is odd, if the capture holds
/// fewer than `buff_len` bytes, if `complex` does not hold exactly `buff_len`
/// values, or if `buff_len` is more than the receiver can deliver in one read.
pub fn rtl_import(rtl_buffer: &Vec<u8>, buff_len: usize, complex: &mut [i64]) -> (outcome: Result<
    (),
    ValidationError,
>)
    ensures
        outcome == import_check(rtl_buffer@.len(), buff_len as nat, old(complex)@.len()),
        outcome is Ok ==> final(complex)@ == imported(rtl_buffer@.take(buff_len as int)),
        outcome is Err ==> final(complex)@ == old(complex)@,
{
    if buff_len % 2 != 0 {
        return Err(ValidationError::OddLength);
    }
    if buff_len > rtl_buffer.len() || complex.len() != buff_len {
        return Err(ValidationError::SizeMismatch);
    }
    if buff_len > MAX_CAPTURE_BYTES {
        return Err(ValidationError::OutOfRange);
    }
    let ghost bytes = rtl_buffer@.take(buff_len as int);
    let mut i: usize = 0;
    while i < buff_len
        invariant
            i <= buff_len,
            buff_len <= rtl_buffer@.len(),
            buff_len == complex@.len(),
            bytes == rtl_buffer@.take(buff_len as int),
            forall|k: int| 0 <= k < i ==> complex@[k] == centered(bytes[k]),
        decreases buff_len - i,
    {
        complex[i] = rtl_buffer[i] as i64 - UNIT;
        i += 1;
    }
    assert(complex@ == centered_all(bytes));
    proof {
        lemma_capture_fits(bytes);
    }
    dc_correct(complex)
}

/// Every sample of a capture that holds no byte 255 lies between -1 and 1:
/// its numerator lies between -127 and 127. (The byte 255 stands for
/// 128/127.) The centred buffer is as long as the capture.
pub proof fn lemma_normalized_within_unit(bytes: Seq<u8>)
    requires
        bytes.len() % 2 == 0,
        forall|i: int| 0 <= i < bytes.len() ==> bytes[i] != 255,
    ensures
        centered_all(bytes).len() == bytes.len(),
        forall|i: int|
            0 <= i < bytes.len() ==> -UNIT <= #[trigger] centered_all(bytes)[i] <= UNIT,
{
}

proof fn lemma_corrected_sum(s: Seq<i64>, phase: int, pairs: nat)
    requires
        s.len() % 2 == 0,
        dc_fits(s),
        0 <= phase <= 1,
        2 * pairs <= s.len(),
    ensures
        component_sum(dc_corrected(s), phase, pairs) == (s.len() / 2) * component_sum(
            s,
            phase,
            pairs,
        ) - pairs * component_sum(s, phase, s.len() / 2),
    decreases pairs,
{
    let n = (s.len() / 2) as int;
    let total = component_sum(s, phase, s.len() / 2);
    if pairs == 0 {
        assert(n * 0 - pairs * total == 0) by (nonlinear_arith)
            requires
                pairs == 0,
        ;
    } else {
        let at = 2 * (pairs - 1) + phase;
        let head = component_sum(s, phase, (pairs - 1) as nat);
        lemma_corrected_sum(s, phase, (pairs - 1) as nat);
        assert(n * (head + s[at]) - pairs * total == (n * head - (pairs - 1) * total) + (n * s[at]
            - total)) by (nonlinear_arith);
    }
}

/// After the mean is removed, the real parts of a buffer sum to zero, and so
/// do its imaginary parts: both means are exactly zero.
pub proof fn lemma_corrected_mean_is_zero(s: Seq<i64>)
    requires
        s.len() % 2 == 0,
        dc_fits(s),
    ensures
        component_sum(dc_corrected(s), 0, s.len() / 2) == 0,
        component_sum(dc_corrected(s), 1, s.len() / 2) == 0,
{
    lemma_corrected_sum(s, 0, s.len() / 2);
    lemma_corrected_sum(s, 1, s.len() / 2);
}

/// An imported capture has a mean of exactly zero, in its real and in its
/// imaginary parts.
pub proof fn lemma_imported_mean_is_zero(bytes: Seq<u8>)
    requires
        bytes.len() % 2 == 0,
        bytes.len() <= MAX_CAPTURE_BYTES,
    ensures
        imported(bytes).len() == bytes.len(),
        component_sum(imported(bytes), 0, bytes.len() / 2) == 0,
        component_sum(imported(bytes), 1, bytes.len() / 2) == 0,
{
    lemma_capture_fits(bytes);
    lemma_corrected_mean_is_zero(centered_all(bytes));
}

/// The squared magnitude of the sample that the bytes `re` and `im` stand
/// for, in units of 1/127 squared.
pub open spec fn power(re: u8, im: u8) -> int {
    centered(re) * centered(re) + centered(im) * centered(im)
}

/// What [`rtl_to_power`] finds wrong with its arguments, if anything.
pub open spec fn power_check(source: nat, len: nat) -> Result<(), ValidationError> {
    if len % 2 != 0 {
        Err(ValidationError::OddLength)
    } else if len > source {
        Err(ValidationError::SizeMismatch)
    } else {
        Ok(())
    }
}

/// The squared magnitude of each of the complex samples in the first `len`
/// bytes of a capture. The magnitude itself is the square root, over 127.
///
/// Fails if `len` is odd or if the capture holds fewer than `len` bytes.
pub fn rtl_to_power(rtl_buffer: &Vec<u8>, len: usize) -> (outcome: Result<
    Vec<u32>,
    ValidationError,
>)
    ensures
        match outcome {
            Ok(powers) => {
                &&& power_check(rtl_buffer@.len(), len as nat) is Ok
                &&& powers@.len() == len / 2
                &&& forall|k: int|
                    0 <= k < powers@.len() ==> #[trigger] powers@[k] == power(
                        rtl_buffer@[2 * k],
                        rtl_buffer@[2 * k + 1],
                    )
            },
            Err(error) => power_check(rtl_buffer@.len(), len as nat) == Err::<(), ValidationError>(
                error,
            ),
        },
{
    if len % 2 != 0 {
        return Err(ValidationError::OddLength);
    }
    if len > rtl_buffer.len() {
        return Err(ValidationError::SizeMismatch);
    }
    let mut powers: Vec<u32> = Vec::new();
    let mut i: usize = 0;
    while i < len
        invariant
            i <= len <= rtl_buffer@.len(),
            i % 2 == 0,
            len % 2 == 0,
            powers@.len() == i / 2,
            forall|k: int|
                0 <= k < powers@.len() ==> #[trigger] powers@[k] == power(
                    rtl_buffer@[2 * k],
                    rtl_buffer@[2 * k + 1],
                ),
        decreases len - i,
    {
        let re: i32 = rtl_buffer[i] as i32 - 127;
        let im: i32 = rtl_buffer[i + 1] as i32 - 127;
        assert(0 <= re * re <= 16384 && 0 <= im * im <= 16384) by (nonlinear_arith)
            requires
                -127 <= re <= 128,
                -127 <= im <= 128,
        ;
        powers.push((re * re + im * im) as u32);
        i += 2;
    }
    Ok(powers)
}

} // verus!
