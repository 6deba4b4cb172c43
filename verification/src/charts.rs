//! Fitting a power series to a display: one value for each column of pixels,
//! scaled to the height of the display.
//!
//! A power value is a whole number of whatever unit the caller measures in,
//! or nothing where the power is not finite (the logarithm of no power at
//! all). A value that is nothing is lower than every number, and takes no
//! part in finding the range of the series.

use vstd::prelude::*;
use crate::error::ValidationError;

verus! {

/// The higher of two values.
pub open spec fn higher(a: Option<i64>, b: Option<i64>) -> Option<i64> {
    match (a, b) {
        (Some(x), Some(y)) => if x >= y {
            a
        } else {
            b
        },
        (Some(_), None) => a,
        _ => b,
    }
}

/// The lower of two values, of those that are numbers.
pub open spec fn lower(a: Option<i64>, b: Option<i64>) -> Option<i64> {
    match (a, b) {
        (Some(x), Some(y)) => if x <= y {
            a
        } else {
            b
        },
        (Some(_), None) => a,
        _ => b,
    }
}

/// The highest value of a series: nothing, if the series holds no number.
pub open spec fn peak(s: Seq<Option<i64>>) -> Option<i64>
    decreases s.len(),
{
    if s.len() == 0 {
        None
    } else {
        higher(peak(s.drop_last()), s.last())
    }
}

/// The lowest number of a series: nothing, if the series holds no number.
pub open spec fn floor(s: Seq<Option<i64>>) -> Option<i64>
    decreases s.len(),
{
    if s.len() == 0 {
        None
    } else {
        lower(floor(s.drop_last()), s.last())
    }
}

/// Where the values of column `j` begin in a series of `len` values that is
/// fitted to `width` columns. Value number `i` belongs to column
/// `i * width / len`, so the column begins at `j * len / width`, rounded up.
pub open spec fn column_start(j: int, len: int, width: int) -> int {
    (j * len + width - 1) / width
}

/// The values of column `j`.
pub open spec fn column(data: Seq<Option<i64>>, j: int, width: int) -> Seq<Option<i64>> {
    data.subrange(
        column_start(j, data.len() as int, width),
        column_start(j + 1, data.len() as int, width),
    )
}

/// The peak of every column.
pub open spec fn peaks(data: Seq<Option<i64>>, width: int) -> Seq<Option<i64>> {
    Seq::new(width as nat, |j: int| peak(column(data, j, width)))
}

/// A value scaled from the range `lo..=hi` to the range `0..=height`.
pub open spec fn scaled(value: Option<i64>, lo: int, hi: int, height: int) -> Option<i64> {
    match value {
        Some(v) => Some(((v - lo) * height / (hi - lo)) as i64),
        None => None,
    }
}

/// What [`rescale`] finds wrong with its arguments, if anything.
pub open spec fn rescale_check(width: int, height: int, data: Seq<Option<i64>>) -> Result<
    (),
    ValidationError,
> {
    if width <= 0 || height < 0 {
        Err(ValidationError::OutOfRange)
    } else {
        match (floor(peaks(data, width)), peak(peaks(data, width))) {
            (Some(lo), Some(hi)) => if lo < hi {
                Ok(())
            } else {
                Err(ValidationError::Flat)
            },
            _ => Err(ValidationError::Flat),
        }
    }
}

/// The series fitted to `width` columns and `height` rows: the peak of every
/// column, scaled from the range of the peaks to `0..=height`.
pub open spec fn rescaled(width: int, height: int, data: Seq<Option<i64>>) -> Seq<Option<i64>> {
    let tops = peaks(data, width);
    Seq::new(
        width as nat,
        |j: int| scaled(tops[j], floor(tops).unwrap() as int, peak(tops).unwrap() as int, height),
    )
}

/// What [`rescale`] returns for its arguments: the error that the check
/// finds, or else the fitted series.
pub open spec fn rescale_outcome(
    width: int,
    height: int,
    data: Seq<Option<i64>>,
    outcome: Result<Vec<Option<i64>>, ValidationError>,
) -> bool {
    match outcome {
        Ok(series) => rescale_check(width, height, data) is Ok && series@ == rescaled(
            width,
            height,
            data,
        ),
        Err(error) => rescale_check(width, height, data) == Err::<(), ValidationError>(error),
    }
}

/// Every column begins where the one before it ends, the first at the first
/// value and the one past the last at the end of the series.
pub proof fn lemma_columns_tile(j: int, len: int, width: int)
    requires
        0 <= j < width,
        0 <= len,
    ensures
        0 <= column_start(j, len, width) <= column_start(j + 1, len, width) <= len,
        column_start(0, len, width) == 0,
        column_start(width, len, width) == len,
{
    assert(0 <= j * len <= (j + 1) * len <= width * len) by (nonlinear_arith)
        requires
            0 <= j < width,
            0 <= len,
    ;
    assert(0 <= (j * len + width - 1) / width <= ((j + 1) * len + width - 1) / width <= (width
        * len + width - 1) / width) by (nonlinear_arith)
        requires
            0 <= j * len <= (j + 1) * len <= width * len,
            0 < width,
    ;
    assert((width * len + width - 1) / width == len) by (nonlinear_arith)
        requires
            0 < width,
            0 <= len,
    ;
    assert((0 * len + width - 1) / width == 0) by (nonlinear_arith)
        requires
            0 < width,
    ;
}

/// Value number `i` of the series lies in column `i * width / len`, and in
/// no other.
pub proof fn lemma_column_of_value(i: int, j: int, len: int, width: int)
    requires
        0 <= i < len,
        0 <= j < width,
    ensures
        column_start(j, len, width) <= i < column_start(j + 1, len, width) <==> j == i * width
            / len,
{
    assert(column_start(j, len, width) <= i <==> j * len <= i * width) by (nonlinear_arith)
        requires
            0 <= i,
            0 <= j,
            0 < width,
            0 < len,
            column_start(j, len, width) == (j * len + width - 1) / width,
    ;
    assert(i < column_start(j + 1, len, width) <==> i * width < (j + 1) * len)
        by (nonlinear_arith)
        requires
            0 <= i,
            0 <= j,
            0 < width,
            0 < len,
            column_start(j + 1, len, width) == ((j + 1) * len + width - 1) / width,
    ;
    assert((j * len <= i * width && i * width < (j + 1) * len) <==> j == i * width / len)
        by (nonlinear_arith)
        requires
            0 <= i,
            0 <= j,
            0 < width,
            0 < len,
    ;
}

/// The peak of a series is the greatest of its numbers, and is nothing only
/// if the series holds no number.
pub proof fn lemma_peak_is_greatest(s: Seq<Option<i64>>)
    ensures
        forall|k: int|
            0 <= k < s.len() && (#[trigger] s[k]) is Some ==> peak(s) is Some && s[k].unwrap()
                <= peak(s).unwrap(),
        peak(s) is Some ==> exists|k: int| 0 <= k < s.len() && #[trigger] s[k] == peak(s),
    decreases s.len(),
{
    if s.len() > 0 {
        let head = s.drop_last();
        lemma_peak_is_greatest(head);
        assert forall|k: int| 0 <= k < s.len() && (#[trigger] s[k]) is Some implies peak(s) is Some
            && s[k].unwrap() <= peak(s).unwrap() by {
            if k < head.len() {
                assert(head[k] == s[k]);
            }
        }
        if peak(s) is Some && peak(s) != s.last() {
            let k = choose|k: int| 0 <= k < head.len() && #[trigger] head[k] == peak(head);
            assert(s[k] == peak(s));
        }
    }
}

/// The floor of a series is the least of its numbers, and is nothing only if
/// the series holds no number.
pub proof fn lemma_floor_is_least(s: Seq<Option<i64>>)
    ensures
        forall|k: int|
            0 <= k < s.len() && (#[trigger] s[k]) is Some ==> floor(s) is Some && floor(
                s,
            ).unwrap() <= s[k].unwrap(),
        floor(s) is Some ==> exists|k: int| 0 <= k < s.len() && #[trigger] s[k] == floor(s),
    decreases s.len(),
{
    if s.len() > 0 {
        let head = s.drop_last();
        lemma_floor_is_least(head);
        assert forall|k: int| 0 <= k < s.len() && (#[trigger] s[k]) is Some implies floor(s) is Some
            && floor(s).unwrap() <= s[k].unwrap() by {
            if k < head.len() {
                assert(head[k] == s[k]);
            }
        }
        if floor(s) is Some && floor(s) != s.last() {
            let k = choose|k: int| 0 <= k < head.len() && #[trigger] head[k] == floor(head);
            assert(s[k] == floor(s));
        }
    }
}

fn pick_higher(a: Option<i64>, b: Option<i64>) -> (r: Option<i64>)
    ensures
        r == higher(a, b),
{
    match (a, b) {
        (Some(x), Some(y)) => if x >= y {
            a
        } else {
            b
        },
        (Some(_), None) => a,
        _ => b,
    }
}

fn pick_lower(a: Option<i64>, b: Option<i64>) -> (r: Option<i64>)
    ensures
        r == lower(a, b),
{
    match (a, b) {
        (Some(x), Some(y)) => if x <= y {
            a
        } else {
            b
        },
        (Some(_), None) => a,
        _ => b,
    }
}

fn start_of(j: usize, len: usize, width: usize) -> (at: usize)
    requires
        0 < j <= width,
    ensures
        at == column_start(j as int, len as int, width as int),
        column_start(j - 1, len as int, width as int) <= at <= len,
{
    proof {
        lemma_columns_tile(j - 1, len as int, width as int);
        assert(0 <= j * len <= 0xffff_ffff_ffff_ffff * 0xffff_ffff_ffff_ffff) by (nonlinear_arith)
            requires
                0 <= j <= 0xffff_ffff_ffff_ffff,
                0 <= len <= 0xffff_ffff_ffff_ffff,
        ;
    }
    let at: u128 = ((j as u128) * (len as u128) + (width as u128 - 1)) / (width as u128);
    at as usize
}

/// Keeps the peak of every column of a series that is fitted to `width`
/// columns. A column that no value falls into has no peak.
///
/// The peak is kept, and not the average, so that a narrow signal survives
/// and the range of the series does not shrink.
pub fn peak_hold(data: &Vec<Option<i64>>, width: usize) -> (tops: Vec<Option<i64>>)
    ensures
        tops@ == peaks(data@, width as int),
{
    let len: usize = data.len();
    let mut tops: Vec<Option<i64>> = Vec::new();
    if width == 0 {
        return tops;
    }
    let mut j: usize = 0;
    let mut lo: usize = 0;
    proof {
        lemma_columns_tile(0, len as int, width as int);
    }
    while j < width
        invariant
            j <= width,
            len == data@.len(),
            lo == column_start(j as int, len as int, width as int),
            lo <= len,
            tops@.len() == j,
            forall|c: int| 0 <= c < j ==> tops@[c] == peak(#[trigger] column(data@, c, width as int)),
        decreases width - j,
    {
        let hi: usize = start_of(j + 1, len, width);
        let mut top: Option<i64> = None;
        let mut k: usize = lo;
        while k < hi
            invariant
                lo <= k <= hi <= len,
                len == data@.len(),
                top == peak(data@.subrange(lo as int, k as int)),
            decreases hi - k,
        {
            proof {
                assert(data@.subrange(lo as int, k + 1).drop_last() == data@.subrange(
                    lo as int,
                    k as int,
                ));
            }
            top = pick_higher(top, data[k]);
            k += 1;
        }
        tops.push(top);
        lo = hi;
        j += 1;
    }
    tops
}

/// The lowest and the highest number of a series.
fn range_of(tops: &Vec<Option<i64>>) -> (range: (Option<i64>, Option<i64>))
    ensures
        range.0 == floor(tops@),
        range.1 == peak(tops@),
{
    let mut lo: Option<i64> = None;
    let mut hi: Option<i64> = None;
    let mut i: usize = 0;
    while i < tops.len()
        invariant
            i <= tops@.len(),
            lo == floor(tops@.take(i as int)),
            hi == peak(tops@.take(i as int)),
        decreases tops@.len() - i,
    {
        proof {
            assert(tops@.take(i + 1).drop_last() == tops@.take(i as int));
        }
        lo = pick_lower(lo, tops[i]);
        hi = pick_higher(hi, tops[i]);
        i += 1;
    }
    proof {
        assert(tops@.take(tops@.len() as int) == tops@);
    }
    (lo, hi)
}

/// Fits a power series to a display of `width` columns and `height` rows:
/// returns one value for each column, the peak of the values that fall into
/// it, scaled so that the lowest peak comes out as 0 and the highest as
/// `height`. Scaling rounds down. A column without a finite value has no
/// value.
///
/// Fails if `width` is not positive or `height` is negative, and if the
/// peaks have no range: if none of them is finite, or all that are finite
/// are equal.
pub fn rescale(width: i32, height: i32, data: &Vec<Option<i64>>) -> (outcome: Result<
    Vec<Option<i64>>,
    ValidationError,
>)
    ensures
        rescale_outcome(width as int, height as int, data@, outcome),
{
    if width <= 0 || height < 0 {
        return Err(ValidationError::OutOfRange);
    }
    let mut tops: Vec<Option<i64>> = peak_hold(data, width as usize);
    let ghost raw = tops@;
    let (lo, hi): (i64, i64) = match range_of(&tops) {
        (Some(lo), Some(hi)) => (lo, hi),
        _ => {
            return Err(ValidationError::Flat);
        },
    };
    if lo >= hi {
        return Err(ValidationError::Flat);
    }
    proof {
        lemma_peak_is_greatest(raw);
        lemma_floor_is_least(raw);
    }
    let span: i128 = hi as i128 - lo as i128;
    let mut j: usize = 0;
    while j < tops.len()
        invariant
            j <= tops@.len(),
            tops@.len() == raw.len(),
            0 <= height,
            span == hi - lo,
            span > 0,
            forall|k: int|
                0 <= k < raw.len() && (#[trigger] raw[k]) is Some ==> lo <= raw[k].unwrap() <= hi,
            forall|k: int|
                0 <= k < j ==> tops@[k] == scaled(raw[k], lo as int, hi as int, height as int),
            forall|k: int| j <= k < tops@.len() ==> tops@[k] == raw[k],
        decreases tops@.len() - j,
    {
        match tops[j] {
            Some(v) => {
                let rise: i128 = v as i128 - lo as i128;
                assert(0 <= rise * height <= span * height && (rise * height) / (span as int)
                    <= height)
                    by (nonlinear_arith)
                    requires
                        0 <= rise <= span,
                        0 < span,
                        0 <= height,
                ;
                assert(span * height <= 0x1_0000_0000_0000_0000 * 0x8000_0000)
                    by (nonlinear_arith)
                    requires
                        0 < span <= 0x1_0000_0000_0000_0000,
                        0 <= height <= 0x8000_0000,
                ;
                let value: i128 = rise * (height as i128) / span;
                tops[j] = Some(value as i64);
            },
            None => {},
        }
        j += 1;
    }
    assert(tops@ =~= rescaled(width as int, height as int, data@));
    Ok(tops)
}

/// Fitting is a function of its arguments: whatever [`rescale`] returns for
/// the same series, width and height, it returns the same error or the same
/// values, one for one.
pub proof fn lemma_rescale_is_repeatable(
    width: int,
    height: int,
    data: Seq<Option<i64>>,
    once: Result<Vec<Option<i64>>, ValidationError>,
    again: Result<Vec<Option<i64>>, ValidationError>,
)
    requires
        rescale_outcome(width, height, data, once),
        rescale_outcome(width, height, data, again),
    ensures
        once is Ok <==> again is Ok,
        once is Ok ==> once->Ok_0@ == again->Ok_0@,
        once is Err ==> once->Err_0 == again->Err_0,
{
}

/// A fitted series has exactly one value for each column; a column has a
/// value if and only if it has a peak; every value lies between 0 and the
/// height; and some column has the value 0 and some the value `height`.
pub proof fn lemma_rescaled_fills_the_height(width: i32, height: i32, data: Seq<Option<i64>>)
    requires
        rescale_check(width as int, height as int, data) is Ok,
    ensures
        rescaled(width as int, height as int, data).len() == width,
        forall|j: int|
            0 <= j < width ==> ((#[trigger] rescaled(width as int, height as int, data)[j]) is Some
                <==> peaks(data, width as int)[j] is Some),
        forall|j: int|
            0 <= j < width && (#[trigger] rescaled(width as int, height as int, data)[j]) is Some
                ==> 0 <= rescaled(width as int, height as int, data)[j].unwrap() <= height,
        exists|j: int|
            0 <= j < width && #[trigger] rescaled(width as int, height as int, data)[j] == Some(
                0i64,
            ),
        exists|j: int|
            0 <= j < width && #[trigger] rescaled(width as int, height as int, data)[j] == Some(
                height as i64,
            ),
{
    let tops = peaks(data, width as int);
    let fitted = rescaled(width as int, height as int, data);
    let lo = floor(tops).unwrap() as int;
    let hi = peak(tops).unwrap() as int;
    lemma_peak_is_greatest(tops);
    lemma_floor_is_least(tops);
    assert forall|j: int| 0 <= j < width && (#[trigger] fitted[j]) is Some implies 0
        <= fitted[j].unwrap() <= height by {
        let rise = tops[j].unwrap() - lo;
        assert(0 <= rise * height / (hi - lo) <= height) by (nonlinear_arith)
            requires
                0 <= rise <= hi - lo,
                0 < hi - lo,
                0 <= height,
        ;
    }
    let low = choose|k: int| 0 <= k < tops.len() && #[trigger] tops[k] == floor(tops);
    assert(0 * height / (hi - lo) == 0) by (nonlinear_arith)
        requires
            0 < hi - lo,
    ;
    assert(fitted[low] == Some(0i64));
    let high = choose|k: int| 0 <= k < tops.len() && #[trigger] tops[k] == peak(tops);
    assert((hi - lo) * height / (hi - lo) == height) by (nonlinear_arith)
        requires
            0 < hi - lo,
    ;
    assert(fitted[high] == Some(height as i64));
}

} // verus!
