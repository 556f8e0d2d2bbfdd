use crate::cuvector::{CuVector, CuVectorSlice, CuVectorSliceMut};
use crate::device::{DevicePtr, Region};
use core::marker::PhantomData;
use vstd::prelude::*;

verus! {

/// What remains of cursor `c` after asking it for `k` elements.
pub open spec fn after_next(c: Region, k: int) -> Region {
    if k <= c.len {
        c.sub(k, c.len - k)
    } else {
        c
    }
}

/// The window that cursor `c` hands out when asked for `k` elements.
pub open spec fn taken(c: Region, k: int) -> Option<Region> {
    if k <= c.len {
        Some(c.sub(0, k))
    } else {
        None
    }
}

/// What remains of cursor `c` after skipping `k` elements.
pub open spec fn after_skip(c: Region, k: int) -> Region {
    if k <= c.len {
        c.sub(k, c.len - k)
    } else {
        c.sub(c.len, 0)
    }
}

/// The windows that cursor `c` hands out when asked in turn for each of `ks`.
pub open spec fn windows(c: Region, ks: Seq<usize>) -> Seq<Option<Region>>
    decreases ks.len(),
{
    if ks.len() == 0 {
        seq![]
    } else {
        seq![taken(c, ks[0] as int)] + windows(after_next(c, ks[0] as int), ks.drop_first())
    }
}

/// What remains of cursor `c` after it is asked in turn for each of `ks`.
pub open spec fn after_all(c: Region, ks: Seq<usize>) -> Region
    decreases ks.len(),
{
    if ks.len() == 0 {
        c
    } else {
        after_all(after_next(c, ks[0] as int), ks.drop_first())
    }
}

/// The sum of `ks`.
pub open spec fn total(ks: Seq<usize>) -> int
    decreases ks.len(),
{
    if ks.len() == 0 {
        0
    } else {
        total(ks.drop_last()) + ks.last()
    }
}

/// The sum of the first `i` items of `ks`: where window `i` begins.
pub open spec fn prefix(ks: Seq<usize>, i: int) -> int {
    total(ks.take(i))
}

proof fn lemma_total_nonneg(ks: Seq<usize>)
    ensures
        total(ks) >= 0,
    decreases ks.len(),
{
    if ks.len() > 0 {
        lemma_total_nonneg(ks.drop_last());
    }
}

proof fn lemma_total_front(ks: Seq<usize>)
    requires
        ks.len() > 0,
    ensures
        total(ks) == ks[0] + total(ks.drop_first()),
    decreases ks.len(),
{
    let df = ks.drop_first();
    if ks.len() > 1 {
        lemma_total_front(ks.drop_last());
        assert(ks.drop_last().drop_first() =~= df.drop_last());
        assert(total(df) == total(df.drop_last()) + df.last());
    } else {
        assert(total(df) == 0);
        assert(total(ks.drop_last()) == 0);
    }
}

proof fn lemma_prefix_step(ks: Seq<usize>, i: int)
    requires
        0 <= i < ks.len(),
    ensures
        prefix(ks, i + 1) == prefix(ks, i) + ks[i],
{
    assert(ks.take(i + 1).drop_last() =~= ks.take(i));
}

proof fn lemma_prefix_mono(ks: Seq<usize>, i: int, j: int)
    requires
        0 <= i <= j <= ks.len(),
    ensures
        prefix(ks, i) <= prefix(ks, j),
    decreases j - i,
{
    if i < j {
        lemma_prefix_step(ks, j - 1);
        lemma_prefix_mono(ks, i, j - 1);
    }
}

proof fn lemma_prefix_shift(ks: Seq<usize>, i: int)
    requires
        0 <= i < ks.len(),
    ensures
        prefix(ks, i + 1) == ks[0] + prefix(ks.drop_first(), i),
{
    lemma_total_front(ks.take(i + 1));
    assert(ks.take(i + 1).drop_first() =~= ks.drop_first().take(i));
}

proof fn lemma_windows_at(c: Region, ks: Seq<usize>)
    requires
        0 <= total(ks) <= c.len,
    ensures
        windows(c, ks).len() == ks.len(),
        forall|i: int|
            0 <= i < ks.len() ==> #[trigger] windows(c, ks)[i] == Some(
                c.sub(prefix(ks, i), ks[i] as int),
            ),
        after_all(c, ks) == c.sub(total(ks), c.len - total(ks)),
    decreases ks.len(),
{
    if ks.len() > 0 {
        let rest = ks.drop_first();
        let c2 = after_next(c, ks[0] as int);
        lemma_total_front(ks);
        lemma_total_nonneg(rest);
        lemma_windows_at(c2, rest);
        assert(ks.take(0) =~= Seq::<usize>::empty());
        assert forall|i: int| 0 <= i < ks.len() implies #[trigger] windows(c, ks)[i] == Some(
            c.sub(prefix(ks, i), ks[i] as int),
        ) by {
            if i > 0 {
                lemma_prefix_shift(ks, i - 1);
                assert(windows(c, ks)[i] == windows(c2, rest)[i - 1]);
            }
        }
    }
}

proof fn lemma_prefix_locate(ks: Seq<usize>, n: int, x: int)
    requires
        0 <= n <= ks.len(),
        0 <= x < prefix(ks, n),
    ensures
        exists|i: int| 0 <= i < n && #[trigger] prefix(ks, i) <= x < prefix(ks, i) + ks[i],
    decreases n,
{
    assert(ks.take(0) =~= Seq::<usize>::empty());
    lemma_prefix_step(ks, n - 1);
    if x < prefix(ks, n - 1) {
        lemma_prefix_locate(ks, n - 1, x);
    }
}

/// A cursor over `c`, asked in turn for `ks[0]`, `ks[1]`, ... elements where
/// the requests add up to the length of `c`, hands out a window for every
/// request: window `i` is the `ks[i]` elements that follow those handed out
/// before it, no two windows share an element, and nothing remains after the
/// last.
pub proof fn lemma_cursor_partition(c: Region, ks: Seq<usize>)
    requires
        c.len == total(ks),
    ensures
        windows(c, ks).len() == ks.len(),
        forall|i: int|
            0 <= i < ks.len() ==> #[trigger] windows(c, ks)[i] == Some(
                c.sub(prefix(ks, i), ks[i] as int),
            ),
        forall|i: int, j: int|
            0 <= i < j < ks.len() ==> #[trigger] c.sub(prefix(ks, i), ks[i] as int).disjoint(
                #[trigger] c.sub(prefix(ks, j), ks[j] as int),
            ),
        after_all(c, ks).len == 0,
{
    lemma_total_nonneg(ks);
    lemma_windows_at(c, ks);
    assert forall|i: int, j: int| 0 <= i < j < ks.len() implies #[trigger] c.sub(
        prefix(ks, i),
        ks[i] as int,
    ).disjoint(#[trigger] c.sub(prefix(ks, j), ks[j] as int)) by {
        lemma_prefix_step(ks, i);
        lemma_prefix_mono(ks, i + 1, j);
    }
}

/// With requests as above, every element of `c` lies in one of the windows
/// handed out: together they cover `c`.
pub proof fn lemma_cursor_covers(c: Region, ks: Seq<usize>, x: int)
    requires
        c.len == total(ks),
        0 <= x < c.len,
    ensures
        exists|i: int|
            0 <= i < ks.len() && #[trigger] c.sub(prefix(ks, i), ks[i] as int).contains(c.elem(x)),
{
    assert(ks.take(ks.len() as int) =~= ks);
    lemma_prefix_locate(ks, ks.len() as int, x);
    let i = choose|i: int| 0 <= i < ks.len() && #[trigger] prefix(ks, i) <= x < prefix(ks, i) + ks[i];
    assert(c.sub(prefix(ks, i), ks[i] as int).contains(c.elem(x)));
}

/// An iterator over a buffer that hands out consecutive read-only windows.
pub struct CuVectorSliceIter<'a> {
    parent: PhantomData<&'a CuVector>,
    len: usize,
    ptr: DevicePtr,
}

impl<'a> View for CuVectorSliceIter<'a> {
    type V = Region;

    /// The part of the buffer not yet handed out or skipped.
    closed spec fn view(&self) -> Region {
        self.ptr.region(self.len as int)
    }
}

impl<'a> CuVectorSliceIter<'a> {
    #[verifier::type_invariant]
    spec fn inv(&self) -> bool {
        self.ptr.offset + self.len <= usize::MAX
    }

    /// The next `len` elements, if that many remain; otherwise nothing, and the
    /// cursor is left as it was.
    pub fn next(&mut self, len: usize) -> (r: Option<CuVectorSlice<'a>>)
        ensures
            final(self)@ == after_next(old(self)@, len as int),
            r is Some <==> len <= old(self)@.len,
            r matches Some(s) ==> taken(old(self)@, len as int) == Some(s@),
    {
        proof {
            use_type_invariant(&*self);
        }
        if len <= self.len {
            let ptr = self.ptr;
            *self = CuVectorSliceIter { parent: PhantomData, len: self.len - len, ptr: ptr.add(len) };
            Some(CuVectorSlice { parent: PhantomData, value: CuVector { len, data: ptr } })
        } else {
            None
        }
    }

    /// Passes over `len` elements, or over all that remain if fewer do.
    pub fn skip(&mut self, len: usize)
        ensures
            final(self)@ == after_skip(old(self)@, len as int),
    {
        proof {
            use_type_invariant(&*self);
        }
        if len <= self.len {
            *self = CuVectorSliceIter { parent: PhantomData, len: self.len - len, ptr: self.ptr.add(len) };
        } else {
            *self = CuVectorSliceIter { parent: PhantomData, len: 0, ptr: self.ptr.add(self.len) };
        }
    }
}

/// An iterator over a buffer that hands out consecutive writable windows.
pub struct CuVectorSliceMutIter<'a> {
    parent: PhantomData<&'a mut CuVector>,
    len: usize,
    ptr: DevicePtr,
}

impl<'a> View for CuVectorSliceMutIter<'a> {
    type V = Region;

    /// The part of the buffer not yet handed out or skipped.
    closed spec fn view(&self) -> Region {
        self.ptr.region(self.len as int)
    }
}

impl<'a> CuVectorSliceMutIter<'a> {
    #[verifier::type_invariant]
    spec fn inv(&self) -> bool {
        self.ptr.offset + self.len <= usize::MAX
    }

    /// The next `len` elements, if that many remain; otherwise nothing, and the
    /// cursor is left as it was.
    pub fn next(&mut self, len: usize) -> (r: Option<CuVectorSliceMut<'a>>)
        ensures
            final(self)@ == after_next(old(self)@, len as int),
            r is Some <==> len <= old(self)@.len,
            r matches Some(s) ==> taken(old(self)@, len as int) == Some(s@),
    {
        proof {
            use_type_invariant(&*self);
        }
        if len <= self.len {
            let ptr = self.ptr;
            *self = CuVectorSliceMutIter { parent: PhantomData, len: self.len - len, ptr: ptr.add(len) };
            Some(CuVectorSliceMut { parent: PhantomData, value: CuVector { len, data: ptr } })
        } else {
            None
        }
    }

    /// Passes over `len` elements, or over all that remain if fewer do.
    pub fn skip(&mut self, len: usize)
        ensures
            final(self)@ == after_skip(old(self)@, len as int),
    {
        proof {
            use_type_invariant(&*self);
        }
        if len <= self.len {
            *self = CuVectorSliceMutIter { parent: PhantomData, len: self.len - len, ptr: self.ptr.add(len) };
        } else {
            *self = CuVectorSliceMutIter { parent: PhantomData, len: 0, ptr: self.ptr.add(self.len) };
        }
    }
}

impl CuVector {
    /// A cursor over the whole buffer, handing out read-only windows.
    pub fn slice_iter(&self) -> (r: CuVectorSliceIter<'_>)
        ensures
            r@ == self@,
    {
        proof {
            use_type_invariant(self);
        }
        CuVectorSliceIter { parent: PhantomData, len: self.len, ptr: self.data }
    }

    /// A cursor over the whole buffer, handing out writable windows.
    pub fn slice_mut_iter(&mut self) -> (r: CuVectorSliceMutIter<'_>)
        ensures
            *final(self) == *old(self),
            r@ == old(self)@,
    {
        proof {
            use_type_invariant(&*self);
        }
        CuVectorSliceMutIter { parent: PhantomData, len: self.len, ptr: self.data }
    }
}

} // verus!
