use crate::device::DevicePtr;
use vstd::prelude::*;

verus! {

/// The raw contents of a detached matrix handle: its shape and where its
/// first element lies. Whoever edits it answers for keeping `len` equal to
/// `rows * cols` and the memory alive.
#[derive(Clone, Copy, Debug, PartialEq, Eq, Structural)]
pub struct CuMatrixPtrDeref {
    pub rows: usize,
    pub cols: usize,
    pub len: usize,
    pub ptr: DevicePtr,
}

/// A handle on a matrix in device memory that never frees it. Its shape stays
/// readable after the memory it points to has been freed elsewhere.
pub struct CuMatrixPtr {
    deref: CuMatrixPtrDeref,
}

impl View for CuMatrixPtr {
    type V = CuMatrixPtrDeref;

    closed spec fn view(&self) -> CuMatrixPtrDeref {
        self.deref
    }
}

impl CuMatrixPtr {
    /// A handle on the `rows` by `cols` matrix whose first element is at `ptr`.
    pub fn new(rows: usize, cols: usize, ptr: DevicePtr) -> (r: CuMatrixPtr)
        requires
            rows * cols <= usize::MAX,
        ensures
            r@ == (CuMatrixPtrDeref { rows, cols, len: (rows * cols) as usize, ptr }),
    {
        CuMatrixPtr { deref: CuMatrixPtrDeref { rows, cols, len: rows * cols, ptr } }
    }

    /// The number of rows, whether or not the memory is still alive.
    pub fn rows(&self) -> (r: usize)
        ensures
            r == self@.rows,
    {
        self.deref.rows
    }

    /// The number of columns, whether or not the memory is still alive.
    pub fn cols(&self) -> (r: usize)
        ensures
            r == self@.cols,
    {
        self.deref.cols
    }

    /// The number of elements, whether or not the memory is still alive.
    pub fn len(&self) -> (r: usize)
        ensures
            r == self@.len,
    {
        self.deref.len
    }

    /// The raw contents, for callers that manage the memory's lifetime
    /// themselves.
    pub fn deref(&mut self) -> (r: &mut CuMatrixPtrDeref)
        ensures
            *r == old(self)@,
            final(self)@ == *final(r),
    {
        &mut self.deref
    }
}

} // verus!
