use crate::device::{fits_kernel, launch, DevicePtr, Kernel, Launch, MemcpyKind, Region, Transfer};
use crate::meta::checks::{check_same_len, DeviceError};
use core::marker::PhantomData;
use vstd::prelude::*;

pub mod slice_iterator;

verus! {

/// An owning handle on a buffer of device elements. The caller that made the
/// allocation frees it once, when the handle is no longer used; the slices
/// taken from it never do.
pub struct CuVector {
    len: usize,
    data: DevicePtr,
}

impl View for CuVector {
    type V = Region;

    closed spec fn view(&self) -> Region {
        self.data.region(self.len as int)
    }
}

impl CuVector {
    #[verifier::type_invariant]
    spec fn inv(&self) -> bool {
        self.data.offset + self.len <= usize::MAX
    }

    /// A handle on the `len` elements of the allocation at `alloc`.
    pub fn new(alloc: usize, len: usize) -> (r: CuVector)
        ensures
            r@ == (Region { alloc, start: 0, len: len as int }),
    {
        CuVector { len, data: DevicePtr { alloc, offset: 0 } }
    }

    /// A handle on `len` elements at `data`, which the caller keeps alive.
    pub(crate) fn from_parts(data: DevicePtr, len: usize) -> (r: CuVector)
        requires
            data.offset + len <= usize::MAX,
        ensures
            r@ == data.region(len as int),
    {
        CuVector { len, data }
    }

    /// The number of elements.
    pub fn len(&self) -> (r: usize)
        ensures
            r == self@.len,
    {
        self.len
    }

    /// Where the first element lies.
    pub fn ptr(&self) -> (r: DevicePtr)
        ensures
            r.region(self@.len) == self@,
            self@.fits(),
    {
        proof {
            use_type_invariant(self);
        }
        self.data
    }

    /// A read-only window over `len` elements from element `offset` on.
    pub fn slice(&self, offset: usize, len: usize) -> (r: CuVectorSlice<'_>)
        requires
            offset < self@.len,
            len <= self@.len - offset,
        ensures
            r@ == self@.sub(offset as int, len as int),
    {
        proof {
            use_type_invariant(self);
        }
        CuVectorSlice { parent: PhantomData, value: CuVector { len, data: self.data.add(offset) } }
    }

    /// A writable window over `len` elements from element `offset` on.
    pub fn slice_mut(&mut self, offset: usize, len: usize) -> (r: CuVectorSliceMut<'_>)
        requires
            offset < old(self)@.len,
            len <= old(self)@.len - offset,
        ensures
            *final(self) == *old(self),
            r@ == old(self)@.sub(offset as int, len as int),
    {
        proof {
            use_type_invariant(&*self);
        }
        CuVectorSliceMut { parent: PhantomData, value: CuVector { len, data: self.data.add(offset) } }
    }

    /// The kernel call that sets every element to a scalar.
    pub fn init(&mut self) -> (r: Result<Launch, DeviceError>)
        ensures
            *final(self) == *old(self),
            r is Ok <==> fits_kernel(old(self)@.len),
            r matches Ok(l) ==> l.calls(Kernel::VectorSet, seq![], old(self)@),
            r matches Err(e) ==> too_large(e, old(self)@),
    {
        launch(Kernel::VectorSet, vec![], self.data, self.len)
    }

    /// The kernel call that adds a scalar to every element.
    pub fn add_scl_self(&mut self) -> (r: Result<Launch, DeviceError>)
        ensures
            *final(self) == *old(self),
            r is Ok <==> fits_kernel(old(self)@.len),
            r matches Ok(l) ==> l.calls(Kernel::VectorAddSclSelf, seq![], old(self)@),
            r matches Err(e) ==> too_large(e, old(self)@),
    {
        launch(Kernel::VectorAddSclSelf, vec![], self.data, self.len)
    }

    /// The kernel call that multiplies every element by a scalar.
    pub fn scale_self(&mut self) -> (r: Result<Launch, DeviceError>)
        ensures
            *final(self) == *old(self),
            r is Ok <==> fits_kernel(old(self)@.len),
            r matches Ok(l) ==> l.calls(Kernel::VectorScaleSelf, seq![], old(self)@),
            r matches Err(e) ==> too_large(e, old(self)@),
    {
        launch(Kernel::VectorScaleSelf, vec![], self.data, self.len)
    }

    /// The kernel call that adds `right_op` to `self`, element by element.
    pub fn add_self(&mut self, right_op: &CuVector) -> (r: Result<Launch, DeviceError>)
        ensures
            *final(self) == *old(self),
            r is Ok <==> old(self)@.len == right_op@.len && fits_kernel(old(self)@.len),
            old(self)@.len != right_op@.len ==> (r matches Err(e) && lengths_differ(
                e,
                old(self)@,
                "self.len()",
                right_op@,
                "right_op.len()",
            )),
            old(self)@.len == right_op@.len && !fits_kernel(old(self)@.len) ==> (r matches Err(e)
                && too_large(e, old(self)@)),
            r matches Ok(l) ==> l.calls(
                Kernel::VectorAdd,
                seq![start_of(old(self)@), start_of(right_op@)],
                old(self)@,
            ),
    {
        match check_same_len(self.len, "self.len()", right_op.len, "right_op.len()") {
            Err(e) => Err(e),
            Ok(()) => launch(Kernel::VectorAdd, vec![self.data, right_op.data], self.data, self.len),
        }
    }

    /// The kernel call that multiplies `self` by `right_op`, element by element.
    pub fn pmult_self(&mut self, right_op: &CuVector) -> (r: Result<Launch, DeviceError>)
        ensures
            *final(self) == *old(self),
            r is Ok <==> old(self)@.len == right_op@.len && fits_kernel(old(self)@.len),
            old(self)@.len != right_op@.len ==> (r matches Err(e) && lengths_differ(
                e,
                old(self)@,
                "self.len()",
                right_op@,
                "right_op.len()",
            )),
            old(self)@.len == right_op@.len && !fits_kernel(old(self)@.len) ==> (r matches Err(e)
                && too_large(e, old(self)@)),
            r matches Ok(l) ==> l.calls(
                Kernel::VectorPMult,
                seq![start_of(old(self)@), start_of(right_op@)],
                old(self)@,
            ),
    {
        match check_same_len(self.len, "self.len()", right_op.len, "right_op.len()") {
            Err(e) => Err(e),
            Ok(()) => launch(
                Kernel::VectorPMult,
                vec![self.data, right_op.data],
                self.data,
                self.len,
            ),
        }
    }

    /// The kernel call that applies `kernel` to two equal-length operands,
    /// writing into a third.
    fn binary(kernel: Kernel, left_op: &CuVector, right_op: &CuVector, output: &CuVector) -> (r:
        Result<Launch, DeviceError>)
        ensures
            r is Ok <==> left_op@.len == right_op@.len && left_op@.len == output@.len
                && fits_kernel(left_op@.len),
            left_op@.len != right_op@.len ==> (r matches Err(e) && lengths_differ(
                e,
                left_op@,
                "left_op.len()",
                right_op@,
                "right_op.len()",
            )),
            left_op@.len == right_op@.len && left_op@.len != output@.len ==> (r matches Err(e)
                && lengths_differ(e, left_op@, "left_op.len()", output@, "output.len()")),
            left_op@.len == right_op@.len && left_op@.len == output@.len && !fits_kernel(
                left_op@.len,
            ) ==> (r matches Err(e) && too_large(e, left_op@)),
            r matches Ok(l) ==> l.calls(
                kernel,
                seq![start_of(left_op@), start_of(right_op@)],
                output@,
            ),
    {
        match check_same_len(left_op.len, "left_op.len()", right_op.len, "right_op.len()") {
            Err(e) => Err(e),
            Ok(()) => match check_same_len(left_op.len, "left_op.len()", output.len, "output.len()") {
                Err(e) => Err(e),
                Ok(()) => launch(kernel, vec![left_op.data, right_op.data], output.data, output.len),
            },
        }
    }

    /// The kernel call that writes `left_op - right_op` into `output`.
    pub fn sub(left_op: &CuVector, right_op: &CuVector, output: &mut CuVector) -> (r: Result<
        Launch,
        DeviceError,
    >)
        ensures
            *final(output) == *old(output),
            r is Ok <==> left_op@.len == right_op@.len && left_op@.len == old(output)@.len
                && fits_kernel(left_op@.len),
            left_op@.len != right_op@.len ==> (r matches Err(e) && lengths_differ(
                e,
                left_op@,
                "left_op.len()",
                right_op@,
                "right_op.len()",
            )),
            left_op@.len == right_op@.len && left_op@.len != old(output)@.len ==> (r matches Err(e)
                && lengths_differ(e, left_op@, "left_op.len()", old(output)@, "output.len()")),
            left_op@.len == right_op@.len && left_op@.len == old(output)@.len && !fits_kernel(
                left_op@.len,
            ) ==> (r matches Err(e) && too_large(e, left_op@)),
            r matches Ok(l) ==> l.calls(
                Kernel::VectorSub,
                seq![start_of(left_op@), start_of(right_op@)],
                old(output)@,
            ),
    {
        CuVector::binary(Kernel::VectorSub, left_op, right_op, output)
    }

    /// The kernel call that writes the elementwise product of `left_op` and
    /// `right_op` into `output`.
    pub fn pmult(left_op: &CuVector, right_op: &CuVector, output: &mut CuVector) -> (r: Result<
        Launch,
        DeviceError,
    >)
        ensures
            *final(output) == *old(output),
            r is Ok <==> left_op@.len == right_op@.len && left_op@.len == old(output)@.len
                && fits_kernel(left_op@.len),
            left_op@.len != right_op@.len ==> (r matches Err(e) && lengths_differ(
                e,
                left_op@,
                "left_op.len()",
                right_op@,
                "right_op.len()",
            )),
            left_op@.len == right_op@.len && left_op@.len != old(output)@.len ==> (r matches Err(e)
                && lengths_differ(e, left_op@, "left_op.len()", old(output)@, "output.len()")),
            left_op@.len == right_op@.len && left_op@.len == old(output)@.len && !fits_kernel(
                left_op@.len,
            ) ==> (r matches Err(e) && too_large(e, left_op@)),
            r matches Ok(l) ==> l.calls(
                Kernel::VectorPMult,
                seq![start_of(left_op@), start_of(right_op@)],
                old(output)@,
            ),
    {
        CuVector::binary(Kernel::VectorPMult, left_op, right_op, output)
    }

    /// The kernel call that applies `kernel` to one operand, writing into an
    /// output of the same length.
    fn unary(kernel: Kernel, vector: &CuVector, output: &CuVector) -> (r: Result<
        Launch,
        DeviceError,
    >)
        ensures
            r is Ok <==> vector@.len == output@.len && fits_kernel(vector@.len),
            vector@.len != output@.len ==> (r matches Err(e) && lengths_differ(
                e,
                vector@,
                "vector.len()",
                output@,
                "output.len()",
            )),
            vector@.len == output@.len && !fits_kernel(vector@.len) ==> (r matches Err(e)
                && too_large(e, vector@)),
            r matches Ok(l) ==> l.calls(kernel, seq![start_of(vector@)], output@),
    {
        match check_same_len(vector.len, "vector.len()", output.len, "output.len()") {
            Err(e) => Err(e),
            Ok(()) => {
                let operands = vec![vector.data];
                assert(operands@ =~= seq![start_of(vector@)]);
                launch(kernel, operands, output.data, output.len)
            },
        }
    }

    /// The kernel call that writes the logistic function of `vector` into `output`.
    pub fn sigmoid(vector: &CuVector, output: &mut CuVector) -> (r: Result<Launch, DeviceError>)
        ensures
            *final(output) == *old(output),
            r is Ok <==> vector@.len == old(output)@.len && fits_kernel(vector@.len),
            vector@.len != old(output)@.len ==> (r matches Err(e) && lengths_differ(
                e,
                vector@,
                "vector.len()",
                old(output)@,
                "output.len()",
            )),
            vector@.len == old(output)@.len && !fits_kernel(vector@.len) ==> (r matches Err(e)
                && too_large(e, vector@)),
            r matches Ok(l) ==> l.calls(Kernel::VectorSigmoid, seq![start_of(vector@)], old(output)@),
    {
        CuVector::unary(Kernel::VectorSigmoid, vector, output)
    }

    /// The kernel call that writes the derivative of the logistic function,
    /// taken at `vector`, into `output`.
    pub fn sigmoid_deriv(vector: &CuVector, output: &mut CuVector) -> (r: Result<
        Launch,
        DeviceError,
    >)
        ensures
            *final(output) == *old(output),
            r is Ok <==> vector@.len == old(output)@.len && fits_kernel(vector@.len),
            vector@.len != old(output)@.len ==> (r matches Err(e) && lengths_differ(
                e,
                vector@,
                "vector.len()",
                old(output)@,
                "output.len()",
            )),
            vector@.len == old(output)@.len && !fits_kernel(vector@.len) ==> (r matches Err(e)
                && too_large(e, vector@)),
            r matches Ok(l) ==> l.calls(
                Kernel::VectorSigmoidDeriv,
                seq![start_of(vector@)],
                old(output)@,
            ),
    {
        CuVector::unary(Kernel::VectorSigmoidDeriv, vector, output)
    }

    /// The copy of a host buffer of `data_len` elements into this buffer.
    pub fn copy_from_host(&mut self, data_len: usize) -> (r: Result<Transfer, DeviceError>)
        ensures
            *final(self) == *old(self),
            r is Ok <==> old(self)@.len == data_len,
            r matches Err(e) ==> lengths_differ_host(e, old(self)@, "self.len()", data_len, "data.len()"),
            r matches Ok(t) ==> t.copies(MemcpyKind::HostToDevice, Some(old(self)@), None),
    {
        match check_same_len(self.len, "self.len()", data_len, "data.len()") {
            Err(e) => Err(e),
            Ok(()) => Ok(
                Transfer { kind: MemcpyKind::HostToDevice, dst: Some(self.data), src: None, count: self.len },
            ),
        }
    }

    /// The copy of this buffer into a host buffer of `data_len` elements.
    pub fn copy_to_host(&self, data_len: usize) -> (r: Result<Transfer, DeviceError>)
        ensures
            r is Ok <==> self@.len == data_len,
            r matches Err(e) ==> lengths_differ_host(e, self@, "self.len()", data_len, "data.len()"),
            r matches Ok(t) ==> t.copies(MemcpyKind::DeviceToHost, None, Some(self@)),
    {
        match check_same_len(self.len, "self.len()", data_len, "data.len()") {
            Err(e) => Err(e),
            Ok(()) => Ok(
                Transfer { kind: MemcpyKind::DeviceToHost, dst: None, src: Some(self.data), count: self.len },
            ),
        }
    }

    /// The copy of `source` into this buffer.
    pub fn copy_from_device(&mut self, source: &CuVector) -> (r: Result<Transfer, DeviceError>)
        ensures
            *final(self) == *old(self),
            r is Ok <==> old(self)@.len == source@.len,
            r matches Err(e) ==> lengths_differ(e, old(self)@, "self.len()", source@, "source.len()"),
            r matches Ok(t) ==> t.copies(MemcpyKind::DeviceToDevice, Some(old(self)@), Some(source@)),
    {
        match check_same_len(self.len, "self.len()", source.len, "source.len()") {
            Err(e) => Err(e),
            Ok(()) => Ok(
                Transfer {
                    kind: MemcpyKind::DeviceToDevice,
                    dst: Some(self.data),
                    src: Some(source.data),
                    count: self.len,
                },
            ),
        }
    }
}

/// Where a region's first element lies.
pub open spec fn start_of(v: Region) -> DevicePtr {
    DevicePtr { alloc: v.alloc, offset: v.start as usize }
}

/// `e` reports that the length of `a` differs from that of `b`, under these names.
pub open spec fn lengths_differ(e: DeviceError, a: Region, a_name: &str, b: Region, b_name: &str) -> bool {
    e matches DeviceError::LengthMismatch(m) && m.left_name@ == a_name@ && m.left == a.len
        && m.right_name@ == b_name@ && m.right == b.len
}

/// `e` reports that the length of `a` differs from a host length `n`, under these names.
pub open spec fn lengths_differ_host(e: DeviceError, a: Region, a_name: &str, n: usize, n_name: &str) -> bool {
    e matches DeviceError::LengthMismatch(m) && m.left_name@ == a_name@ && m.left == a.len
        && m.right_name@ == n_name@ && m.right == n
}

/// `e` reports that `v` is too long for a kernel.
pub open spec fn too_large(e: DeviceError, v: Region) -> bool {
    e matches DeviceError::CountTooLarge { len } && len == v.len
}


/// A read-only window over part of a buffer. It frees nothing.
pub struct CuVectorSlice<'a> {
    parent: PhantomData<&'a CuVector>,
    value: CuVector,
}

impl<'a> View for CuVectorSlice<'a> {
    type V = Region;

    closed spec fn view(&self) -> Region {
        self.value@
    }
}

impl<'a> CuVectorSlice<'a> {
    /// The window, as a buffer handle that reads and computes like its parent.
    pub fn as_vector(&self) -> (r: &CuVector)
        ensures
            r@ == self@,
    {
        &self.value
    }
}

impl<'a> core::ops::Deref for CuVectorSlice<'a> {
    type Target = CuVector;

    fn deref(&self) -> (r: &CuVector)
        ensures
            r@ == self@,
    {
        &self.value
    }
}

/// A writable window over part of a buffer. It frees nothing.
pub struct CuVectorSliceMut<'a> {
    parent: PhantomData<&'a mut CuVector>,
    value: CuVector,
}

impl<'a> View for CuVectorSliceMut<'a> {
    type V = Region;

    closed spec fn view(&self) -> Region {
        self.value@
    }
}

impl<'a> CuVectorSliceMut<'a> {
    /// The window, as a buffer handle that reads and computes like its parent.
    pub fn as_vector(&self) -> (r: &CuVector)
        ensures
            r@ == self@,
    {
        &self.value
    }

    /// The window, as a writable buffer handle. The window's region afterwards
    /// is that of the handle as the caller leaves it.
    pub fn as_vector_mut(&mut self) -> (r: &mut CuVector)
        ensures
            r@ == old(self)@,
            final(self)@ == final(r)@,
    {
        &mut self.value
    }
}

impl<'a> core::ops::Deref for CuVectorSliceMut<'a> {
    type Target = CuVector;

    fn deref(&self) -> (r: &CuVector)
        ensures
            r@ == self@,
    {
        &self.value
    }
}

impl<'a> core::ops::DerefMut for CuVectorSliceMut<'a> {
    fn deref_mut(&mut self) -> (r: &mut CuVector)
        ensures
            r@ == old(self)@,
            final(self)@ == final(r)@,
    {
        &mut self.value
    }
}

/// A slice of a buffer lies inside it: each of its elements is an element of
/// the buffer, so the slice addresses no memory of its own, and nothing the
/// slice does when it goes away concerns the buffer's allocation.
pub proof fn lemma_slice_within_parent(b: CuVector, offset: usize, len: usize)
    requires
        offset < b@.len,
        len <= b@.len - offset,
    ensures
        b@.sub(offset as int, len as int).alloc == b@.alloc,
        forall|i: int|
            0 <= i < len ==> #[trigger] b@.contains(b@.sub(offset as int, len as int).elem(i)),
{
}

/// Writing through `b.slice_mut(offset, len)` reaches exactly the elements of
/// `b` at indices `offset .. offset + len`: element `i` of the slice is element
/// `offset + i` of `b`, and no other element of `b` lies in the slice.
pub proof fn lemma_slice_mut_window(b: CuVector, offset: usize, len: usize)
    requires
        offset < b@.len,
        len <= b@.len - offset,
    ensures
        forall|i: int|
            0 <= i < len ==> #[trigger] b@.sub(offset as int, len as int).elem(i) == b@.elem(
                offset + i,
            ),
        forall|j: int|
            0 <= j < b@.len ==> (b@.sub(offset as int, len as int).contains(#[trigger] b@.elem(j))
                <==> offset <= j < offset + len),
{
}

/// Copying a host buffer in with `copy_from_host` and back out with
/// `copy_to_host` moves the same elements both ways: the download reads
/// exactly the device elements that the upload wrote, and as many of them.
pub proof fn lemma_host_round_trip(v: CuVector, upload: Transfer, download: Transfer)
    requires
        upload.copies(MemcpyKind::HostToDevice, Some(v@), None),
        download.copies(MemcpyKind::DeviceToHost, None, Some(v@)),
    ensures
        upload.dst is Some,
        upload.dst == download.src,
        upload.count == download.count,
        upload.count == v@.len,
{
}

} // verus!
