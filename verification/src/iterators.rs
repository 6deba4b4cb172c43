//! Walking a buffer in pairs, and walking the output of a transform in
//! ascending order of frequency.

use vstd::prelude::*;

verus! {

/// The bins of a transform in ascending order of frequency.
///
/// A transform of `n` samples delivers bin `k` for the frequency `k` if
/// `k < n / 2`, and for the negative frequency `k - n` otherwise. Ascending
/// order therefore starts at bin `n / 2` and wraps around.
pub open spec fn ascending<T>(native: Seq<T>) -> Seq<T> {
    Seq::new(native.len(), |i: int| native[(native.len() / 2 + i) % (native.len() as int)])
}

proof fn lemma_wrap(x: int, n: int)
    by (nonlinear_arith)
    requires
        0 <= x < 2 * n,
    ensures
        x < n ==> x % n == x,
        x >= n ==> x % n == x - n,
{
}

/// Ascending order is the upper half of the native order followed by its
/// lower half.
pub proof fn lemma_ascending_is_rotation<T>(native: Seq<T>)
    ensures
        ascending(native) == native.skip(native.len() as int / 2) + native.take(
            native.len() as int / 2,
        ),
{
    let n = native.len() as int;
    let half = n / 2;
    let rotated = native.skip(half) + native.take(half);
    assert forall|i: int| 0 <= i < n implies ascending(native)[i] == rotated[i] by {
        lemma_wrap(half + i, n);
    }
}

/// Copies the bins of a transform into ascending order of frequency.
pub fn dft_order<T: Copy>(data: &[T]) -> (ordered: Vec<T>)
    ensures
        ordered@ == ascending(data@),
{
    let n: usize = data.len();
    let half: usize = n / 2;
    let mut ordered: Vec<T> = Vec::with_capacity(n);
    let mut i: usize = half;
    while i < n
        invariant
            half <= i <= n,
            n == data@.len(),
            ordered@ == data@.subrange(half as int, i as int),
        decreases n - i,
    {
        ordered.push(data[i]);
        i += 1;
    }
    let mut j: usize = 0;
    while j < half
        invariant
            j <= half <= n,
            n == data@.len(),
            ordered@ == data@.skip(half as int) + data@.take(j as int),
        decreases half - j,
    {
        ordered.push(data[j]);
        j += 1;
    }
    proof {
        lemma_ascending_is_rotation(data@);
    }
    ordered
}

/// A walk over a buffer that yields its items two at a time.
pub struct Tuples<I> {
    orig: I,
    pos: usize,
}

impl<T: Copy> Tuples<Vec<T>> {
    /// The items that the walk has not consumed yet.
    pub closed spec fn remaining(&self) -> Seq<T> {
        if self.pos <= self.orig@.len() {
            self.orig@.skip(self.pos as int)
        } else {
            Seq::empty()
        }
    }

    /// Yields the next two items as a pair. When fewer than two items are
    /// left, consumes what is left and yields nothing, now and ever after.
    pub fn next(&mut self) -> (pair: Option<(T, T)>)
        ensures
            old(self).remaining().len() >= 2 ==> pair == Some(
                (old(self).remaining()[0], old(self).remaining()[1]),
            ) && final(self).remaining() == old(self).remaining().skip(2),
            old(self).remaining().len() < 2 ==> pair is None && final(self).remaining()
                == Seq::<T>::empty(),
    {
        let len: usize = self.orig.len();
        if self.pos < len && len - self.pos >= 2 {
            let first: T = self.orig[self.pos];
            let second: T = self.orig[self.pos + 1];
            self.pos = self.pos + 2;
            Some((first, second))
        } else {
            self.pos = len;
            None
        }
    }

    /// How much is left of the walk: the number of items, and the number of
    /// pairs that they make.
    pub fn size_hint(&self) -> (bounds: (usize, Option<usize>))
        ensures
            bounds.0 == self.remaining().len(),
            bounds.1 == Some((self.remaining().len() / 2) as usize),
    {
        let len: usize = self.orig.len();
        let left: usize = if self.pos <= len {
            len - self.pos
        } else {
            0
        };
        (left, Some(left / 2))
    }
}

/// Buffers that can be walked in pairs.
pub trait TuplesImpl: Sized {
    /// Starts a walk in pairs over the whole of `self`.
    fn tuples(self) -> Tuples<Self>;
}

impl<T: Copy> TuplesImpl for Vec<T> {
    fn tuples(self) -> (pairs: Tuples<Vec<T>>)
        ensures
            pairs.remaining() == self@,
    {
        Tuples { orig: self, pos: 0 }
    }
}

/// A walk over the output of a transform in ascending order of frequency:
/// the negative frequencies, which the transform delivers in the upper half
/// of its output, come first.
pub struct DftOrder<I> {
    orig: I,
    pos: usize,
}

impl<T: Copy> DftOrder<Vec<T>> {
    /// The bins that the walk has not yielded yet, in the order in which it
    /// will yield them.
    pub closed spec fn remaining(&self) -> Seq<T> {
        if self.pos <= self.orig@.len() {
            ascending(self.orig@).skip(self.pos as int)
        } else {
            Seq::empty()
        }
    }

    /// Starts a walk over the bins `orig`, given in the order in which the
    /// transform delivers them.
    pub fn new(orig: Vec<T>) -> (walk: Self)
        ensures
            walk.remaining() == ascending(orig@),
    {
        DftOrder { orig, pos: 0 }
    }

    /// Yields the next bin in ascending order of frequency, or nothing once
    /// all bins are yielded.
    pub fn next(&mut self) -> (bin: Option<T>)
        ensures
            old(self).remaining().len() > 0 ==> bin == Some(old(self).remaining()[0])
                && final(self).remaining() == old(self).remaining().skip(1),
            old(self).remaining().len() == 0 ==> bin is None && final(self).remaining()
                == Seq::<T>::empty(),
    {
        let n: usize = self.orig.len();
        if self.pos < n {
            let half: usize = n / 2;
            let at: usize = if self.pos < n - half {
                half + self.pos
            } else {
                self.pos - (n - half)
            };
            proof {
                lemma_wrap(half + self.pos, n as int);
            }
            let bin: T = self.orig[at];
            self.pos = self.pos + 1;
            Some(bin)
        } else {
            None
        }
    }

    /// How much is left of the walk: the number of bins, as the least and
    /// as the most that are still to come.
    pub fn size_hint(&self) -> (bounds: (usize, Option<usize>))
        ensures
            bounds.0 == self.remaining().len(),
            bounds.1 == Some(self.remaining().len() as usize),
    {
        let len: usize = self.orig.len();
        let left: usize = if self.pos <= len {
            len - self.pos
        } else {
            0
        };
        (left, Some(left))
    }
}

} // verus!
