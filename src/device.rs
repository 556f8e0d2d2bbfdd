use crate::meta::checks::DeviceError;
use vstd::prelude::*;

verus! {

/// A run of consecutive device elements, as a mathematical value: the
/// allocation it lies in, the index of its first element there, and its length.
pub struct Region {
    pub alloc: usize,
    pub start: int,
    pub len: int,
}

impl Region {
    /// The address of element `i` of the region.
    pub open spec fn elem(self, i: int) -> (usize, int) {
        (self.alloc, self.start + i)
    }

    /// Whether the element at address `e` lies in the region.
    pub open spec fn contains(self, e: (usize, int)) -> bool {
        e.0 == self.alloc && self.start <= e.1 < self.start + self.len
    }

    /// The `len` elements of the region that begin at its element `offset`.
    pub open spec fn sub(self, offset: int, len: int) -> Region {
        Region { alloc: self.alloc, start: self.start + offset, len }
    }

    /// The region can be addressed with `usize` offsets.
    pub open spec fn fits(self) -> bool {
        0 <= self.start && 0 <= self.len && self.start + self.len <= usize::MAX
    }

    /// No element lies in both regions.
    pub open spec fn disjoint(self, o: Region) -> bool {
        self.alloc != o.alloc || self.start + self.len <= o.start || o.start + o.len <= self.start
    }
}

/// A position in device memory: the allocation it lies in (its base address,
/// as the allocator gave it) and its distance from the start of that
/// allocation, counted in elements.
#[derive(Clone, Copy, Debug, PartialEq, Eq, Structural)]
pub struct DevicePtr {
    pub alloc: usize,
    pub offset: usize,
}

impl DevicePtr {
    /// The `len` elements that begin here.
    pub open spec fn region(self, len: int) -> Region {
        Region { alloc: self.alloc, start: self.offset as int, len }
    }

    /// The position `count` elements further on.
    pub fn add(self, count: usize) -> (r: DevicePtr)
        requires
            self.offset + count <= usize::MAX,
        ensures
            r.alloc == self.alloc,
            r.offset == self.offset + count,
    {
        DevicePtr { alloc: self.alloc, offset: self.offset + count }
    }
}

/// The compute kernels that buffers dispatch to.
#[derive(Clone, Copy, Debug, PartialEq, Eq, Structural)]
pub enum Kernel {
    /// Sets every element of the output to a scalar.
    VectorSet,
    /// Adds a scalar to every element of the output.
    VectorAddSclSelf,
    /// Multiplies every element of the output by a scalar.
    VectorScaleSelf,
    /// Elementwise sum of two operands.
    VectorAdd,
    /// Elementwise product of two operands.
    VectorPMult,
    /// Elementwise difference of two operands.
    VectorSub,
    /// Logistic function of one operand.
    VectorSigmoid,
    /// Derivative of the logistic function, of one operand.
    VectorSigmoidDeriv,
}

/// One kernel call: its device operands in order, where it writes, and how
/// many elements it covers. Scalars are supplied by the caller that runs it.
#[derive(Debug)]
pub struct Launch {
    pub kernel: Kernel,
    pub operands: Vec<DevicePtr>,
    pub output: DevicePtr,
    pub count: i32,
}

impl Launch {
    /// `self` runs `kernel` on `operands`, writing over the whole of `out`.
    pub open spec fn calls(self, kernel: Kernel, operands: Seq<DevicePtr>, out: Region) -> bool {
        &&& self.kernel == kernel
        &&& self.operands@ == operands
        &&& self.output.region(self.count as int) == out
    }
}

/// The direction of a copy.
#[derive(Clone, Copy, Debug, PartialEq, Eq, Structural)]
pub enum MemcpyKind {
    HostToDevice,
    DeviceToHost,
    DeviceToDevice,
}

/// One copy of `count` elements. An end that is `None` is the host buffer
/// that the caller holds.
#[derive(Clone, Copy, Debug, PartialEq, Eq, Structural)]
pub struct Transfer {
    pub kind: MemcpyKind,
    pub dst: Option<DevicePtr>,
    pub src: Option<DevicePtr>,
    pub count: usize,
}

/// The device elements at one end of a copy of `count` elements.
pub open spec fn end_region(end: Option<DevicePtr>, count: int) -> Option<Region> {
    match end {
        Some(p) => Some(p.region(count)),
        None => None,
    }
}

impl Transfer {
    /// `self` copies in direction `kind` from `src` to `dst`, all of both.
    pub open spec fn copies(self, kind: MemcpyKind, dst: Option<Region>, src: Option<Region>) -> bool {
        &&& self.kind == kind
        &&& end_region(self.dst, self.count as int) == dst
        &&& end_region(self.src, self.count as int) == src
    }
}

/// Kernels count elements in an `i32`.
pub open spec fn fits_kernel(len: int) -> bool {
    len <= i32::MAX
}

/// Builds a kernel call over the `len` elements at `output`.
pub fn launch(kernel: Kernel, operands: Vec<DevicePtr>, output: DevicePtr, len: usize) -> (r: Result<
    Launch,
    DeviceError,
>)
    ensures
        r is Ok <==> fits_kernel(len as int),
        r matches Ok(l) ==> l.calls(kernel, operands@, output.region(len as int)),
        r matches Err(e) ==> e == (DeviceError::CountTooLarge { len }),
{
    if len > i32::MAX as usize {
        Err(DeviceError::CountTooLarge { len })
    } else {
        Ok(Launch { kernel, operands, output, count: len as i32 })
    }
}

} // verus!
