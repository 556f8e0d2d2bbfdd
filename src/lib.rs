//! Ownership and addressing for buffers of device memory: owning vectors,
//! bounds-checked slices and slice cursors, and shaped matrix views.
//!
//! Device memory itself is reached by the caller. This crate decides, with
//! proofs, which region each handle addresses, whether an operation's operands
//! agree, and which copy or kernel call carries an operation out.
use vstd::prelude::*;

pub mod cumatrix;
pub mod cuvector;
pub mod device;
pub mod meta;

pub use cumatrix::ptr::{CuMatrixPtr, CuMatrixPtrDeref};
pub use cumatrix::view::{CuMatrixDeref, CuMatrixView};
pub use cuvector::slice_iterator::{CuVectorSliceIter, CuVectorSliceMutIter};
pub use cuvector::{CuVector, CuVectorSlice, CuVectorSliceMut};
pub use device::{DevicePtr, Kernel, Launch, MemcpyKind, Transfer};
pub use meta::checks::{assert_eq_usize, assert_infeq_usize, DeviceError, Mismatch};

verus! {

/// A type of element that device buffers can hold.
pub trait CuDataType: Sized {
    spec fn spec_zero() -> Self;

    /// The zero of the type.
    fn zero() -> (r: Self)
        ensures
            r == Self::spec_zero(),
    ;
}

impl CuDataType for i32 {
    open spec fn spec_zero() -> i32 {
        0
    }

    fn zero() -> (r: i32) {
        0
    }
}

} // verus!
