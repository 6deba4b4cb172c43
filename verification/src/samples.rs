//! The store of one scan: every spectrum that the scan has published, one
//! after another.
//!
//! The store only grows. It is emptied when a new scan begins, and never
//! otherwise: to bound it is up to its owner.

use vstd::prelude::*;

verus! {

/// The number of values that a scan of a band is expected to publish: the
/// width of the band, times the samples of one dwell, over the bandwidth.
/// There is no estimate for a band whose ends are crossed, for a bandwidth of
/// zero, nor where the product does not fit the machine.
pub open spec fn estimated_points(
    f_sampling: int,
    range_left: int,
    range_right: int,
    dwell_ms: int,
    bandwidth: int,
) -> Option<usize> {
    if range_left <= range_right && bandwidth > 0 && (range_right - range_left) * f_sampling
        * dwell_ms <= usize::MAX {
        Some(((range_right - range_left) * f_sampling * dwell_ms / 1000 / bandwidth) as usize)
    } else {
        None
    }
}

/// The values of one scan, in the order in which they arrived, with the band
/// that the scan covers.
#[derive(Debug)]
pub struct Samples<T> {
    /// The values, oldest first.
    pub samples: Vec<T>,
    /// The lower end of the band, in Hz.
    pub range_left: usize,
    /// The upper end of the band, in Hz.
    pub range_right: usize,
    /// The width of the band that one capture covers, in Hz.
    pub bandwidth: usize,
    /// Complex samples a second.
    pub f_sampling: usize,
    /// How long the receiver stays on one frequency, in milliseconds.
    pub dwell_ms: usize,
    /// The number of values that the scan is expected to publish, if there is
    /// an estimate.
    pub capacity: Option<usize>,
}

fn estimate(
    f_sampling: usize,
    range_left: usize,
    range_right: usize,
    dwell_ms: usize,
    bandwidth: usize,
) -> (points: Option<usize>)
    ensures
        points == estimated_points(
            f_sampling as int,
            range_left as int,
            range_right as int,
            dwell_ms as int,
            bandwidth as int,
        ),
{
    if range_left > range_right || bandwidth == 0 {
        return None;
    }
    let range: usize = range_right - range_left;
    assert(0 <= range * f_sampling <= 0xffff_ffff_ffff_ffff * 0xffff_ffff_ffff_ffff)
        by (nonlinear_arith)
        requires
            0 <= range <= 0xffff_ffff_ffff_ffff,
            0 <= f_sampling <= 0xffff_ffff_ffff_ffff,
    ;
    let per_ms: u128 = (range as u128) * (f_sampling as u128);
    if per_ms == 0 || dwell_ms == 0 {
        assert(range * f_sampling * dwell_ms == 0) by (nonlinear_arith)
            requires
                range * f_sampling == 0 || dwell_ms == 0,
        ;
        return Some(0);
    }
    if per_ms > usize::MAX as u128 {
        assert(range * f_sampling * dwell_ms > usize::MAX) by (nonlinear_arith)
            requires
                range * f_sampling > usize::MAX,
                dwell_ms >= 1,
        ;
        return None;
    }
    assert(0 <= per_ms * dwell_ms <= 0xffff_ffff_ffff_ffff * 0xffff_ffff_ffff_ffff)
        by (nonlinear_arith)
        requires
            0 <= per_ms <= 0xffff_ffff_ffff_ffff,
            0 <= dwell_ms <= 0xffff_ffff_ffff_ffff,
    ;
    let product: u128 = per_ms * (dwell_ms as u128);
    if product > usize::MAX as u128 {
        return None;
    }
    let points: u128 = product / 1000 / (bandwidth as u128);
    Some(points as usize)
}

impl<T> Samples<T> {
    /// An empty store for a scan of the band from `range_left` to
    /// `range_right`.
    pub fn new(
        f_sampling: usize,
        range_left: usize,
        range_right: usize,
        dwell_ms: usize,
        bandwidth: usize,
    ) -> (store: Samples<T>)
        ensures
            store.samples@ == Seq::<T>::empty(),
            store.range_left == range_left,
            store.range_right == range_right,
            store.bandwidth == bandwidth,
            store.f_sampling == f_sampling,
            store.dwell_ms == dwell_ms,
            store.capacity == estimated_points(
                f_sampling as int,
                range_left as int,
                range_right as int,
                dwell_ms as int,
                bandwidth as int,
            ),
    {
        Samples {
            samples: Vec::new(),
            range_left,
            range_right,
            bandwidth,
            f_sampling,
            dwell_ms,
            capacity: estimate(f_sampling, range_left, range_right, dwell_ms, bandwidth),
        }
    }

    /// Appends the values of one spectrum, after all that the store holds and
    /// in their order. What the store held, it still holds, at the same
    /// places. Nothing else changes.
    pub fn push(&mut self, values: Vec<T>)
        ensures
            final(self).samples@ == old(self).samples@ + values@,
            old(self).samples@.is_prefix_of(final(self).samples@),
            final(self).range_left == old(self).range_left,
            final(self).range_right == old(self).range_right,
            final(self).bandwidth == old(self).bandwidth,
            final(self).f_sampling == old(self).f_sampling,
            final(self).dwell_ms == old(self).dwell_ms,
            final(self).capacity == old(self).capacity,
    {
        let mut values = values;
        self.samples.append(&mut values);
    }

    /// Empties the store for a scan of another band, made as the scan before
    /// it, and estimates anew how many values to expect.
    pub fn reset(&mut self, range_left: usize, range_right: usize)
        ensures
            final(self).samples@ == Seq::<T>::empty(),
            final(self).range_left == range_left,
            final(self).range_right == range_right,
            final(self).bandwidth == old(self).bandwidth,
            final(self).f_sampling == old(self).f_sampling,
            final(self).dwell_ms == old(self).dwell_ms,
            final(self).capacity == estimated_points(
                old(self).f_sampling as int,
                range_left as int,
                range_right as int,
                old(self).dwell_ms as int,
                old(self).bandwidth as int,
            ),
    {
        self.samples.clear();
        self.range_left = range_left;
        self.range_right = range_right;
        self.capacity = estimate(
            self.f_sampling,
            range_left,
            range_right,
            self.dwell_ms,
            self.bandwidth,
        );
    }
}

} // verus!
