use crate::cuvector::{start_of, CuVector};
use crate::device::DevicePtr;
use crate::meta::checks::{assert_infeq_usize, DeviceError, Mismatch};
use vstd::prelude::*;

verus! {

/// A matrix laid out by columns over device memory: `rows` by `cols`
/// elements, column `c` beginning `c * ld` elements after `ptr`, and `ptr`
/// empty while the shape is bound to no buffer.
pub struct MatrixModel {
    pub rows: int,
    pub cols: int,
    pub ld: int,
    pub ptr: Option<DevicePtr>,
}

impl MatrixModel {
    /// How many elements, from the first, the matrix spans.
    pub open spec fn extent(self) -> int {
        self.ld * self.cols
    }

    /// The address of the element at `row` and `col`, once bound.
    pub open spec fn elem(self, row: int, col: int) -> (usize, int) {
        (self.ptr->0.alloc, self.ptr->0.offset + col * self.ld + row)
    }
}

/// A shaped window over device memory, laid out by columns.
pub struct CuMatrixDeref {
    rows: usize,
    cols: usize,
    len: usize,
    leading_dimension: usize,
    ptr: Option<DevicePtr>,
}

impl View for CuMatrixDeref {
    type V = MatrixModel;

    closed spec fn view(&self) -> MatrixModel {
        MatrixModel {
            rows: self.rows as int,
            cols: self.cols as int,
            ld: self.leading_dimension as int,
            ptr: self.ptr,
        }
    }
}

impl CuMatrixDeref {
    #[verifier::type_invariant]
    spec fn inv(&self) -> bool {
        &&& self.len == self.rows * self.cols
        &&& self.ptr matches Some(p) ==> p.offset + self.leading_dimension * self.cols
            <= usize::MAX
    }

    /// The number of rows.
    pub fn rows(&self) -> (r: usize)
        ensures
            r == self@.rows,
    {
        self.rows
    }

    /// The number of columns.
    pub fn cols(&self) -> (r: usize)
        ensures
            r == self@.cols,
    {
        self.cols
    }

    /// The number of elements, `rows * cols`.
    pub fn len(&self) -> (r: usize)
        ensures
            r == self@.rows * self@.cols,
    {
        proof {
            use_type_invariant(self);
        }
        self.len
    }

    /// The distance between the starts of two neighbouring columns.
    pub fn leading_dimension(&self) -> (r: usize)
        ensures
            r == self@.ld,
    {
        self.leading_dimension
    }

    /// Where the first element lies, once bound.
    pub fn ptr(&self) -> (r: Option<DevicePtr>)
        ensures
            r == self@.ptr,
    {
        self.ptr
    }

    /// Where the element at `row` and `col` lies.
    pub fn element(&self, row: usize, col: usize) -> (r: DevicePtr)
        requires
            self@.ptr is Some,
            row < self@.rows,
            col < self@.cols,
            self@.rows <= self@.ld,
        ensures
            (r.alloc, r.offset as int) == self@.elem(row as int, col as int),
    {
        proof {
            use_type_invariant(self);
            let ld = self.leading_dimension as int;
            let cols = self.cols as int;
            assert(col * ld + row < ld * cols) by (nonlinear_arith)
                requires
                    row < self.rows <= ld,
                    col < cols,
            ;
        }
        let p = self.ptr.unwrap();
        p.add(col * self.leading_dimension + row)
    }
}

/// The shape of a matrix and where it begins in a buffer, kept apart from any
/// buffer so that one description can be bound to many.
pub struct CuMatrixView {
    offset: usize,
    deref: CuMatrixDeref,
}

/// A matrix description: its offset and the shape that binding fills in.
pub struct ViewModel {
    pub offset: int,
    pub deref: MatrixModel,
}

impl View for CuMatrixView {
    type V = ViewModel;

    closed spec fn view(&self) -> ViewModel {
        ViewModel { offset: self.offset as int, deref: self.deref@ }
    }
}

impl CuMatrixView {
    /// A description of a `rows` by `cols` matrix with columns
    /// `leading_dimension` apart, starting `offset` elements into a buffer.
    pub fn new(offset: usize, rows: usize, cols: usize, leading_dimension: usize) -> (r:
        CuMatrixView)
        requires
            rows * cols <= usize::MAX,
        ensures
            r@ == (ViewModel {
                offset: offset as int,
                deref: MatrixModel {
                    rows: rows as int,
                    cols: cols as int,
                    ld: leading_dimension as int,
                    ptr: None,
                },
            }),
    {
        CuMatrixView {
            offset,
            deref: CuMatrixDeref { ptr: None, len: rows * cols, rows, cols, leading_dimension },
        }
    }

    /// The number of elements of the matrix.
    pub fn len(&self) -> (r: usize)
        ensures
            r == self@.deref.rows * self@.deref.cols,
    {
        self.deref.len()
    }

    /// Binds the description to `vector` for reading: the matrix then begins
    /// `offset` elements into it. Refused, with `self` left as it was, where
    /// the matrix would reach past the end of `vector`.
    pub fn borrow(&mut self, vector: &CuVector) -> (r: Result<&CuMatrixDeref, DeviceError>)
        ensures
            r is Ok <==> old(self)@.offset + old(self)@.deref.extent() <= vector@.len,
            r is Err ==> *final(self) == *old(self),
            r matches Err(e) ==> out_of_bounds(e, old(self)@, vector@.len),
            r matches Ok(d) ==> d@ == bound(old(self)@, vector@.alloc, vector@.start),
            r is Ok ==> final(self)@ == (ViewModel {
                offset: old(self)@.offset,
                deref: bound(old(self)@, vector@.alloc, vector@.start),
            }),
    {
        match self.bind(vector) {
            Err(e) => Err(e),
            Ok(()) => Ok(&self.deref),
        }
    }

    /// Binds the description to `vector` for writing, as `borrow` does for
    /// reading.
    pub fn borrow_mut(&mut self, vector: &mut CuVector) -> (r: Result<
        &mut CuMatrixDeref,
        DeviceError,
    >)
        ensures
            *final(vector) == *old(vector),
            r is Ok <==> old(self)@.offset + old(self)@.deref.extent() <= old(vector)@.len,
            r is Err ==> *final(self) == *old(self),
            r matches Err(e) ==> out_of_bounds(e, old(self)@, old(vector)@.len),
            r matches Ok(d) ==> d@ == bound(old(self)@, old(vector)@.alloc, old(vector)@.start),
            r matches Ok(d) ==> final(self)@ == (ViewModel {
                offset: old(self)@.offset,
                deref: final(d)@,
            }),
    {
        match self.bind(vector) {
            Err(e) => Err(e),
            Ok(()) => Ok(&mut self.deref),
        }
    }

    fn bind(&mut self, vector: &CuVector) -> (r: Result<(), DeviceError>)
        ensures
            r is Ok <==> old(self)@.offset + old(self)@.deref.extent() <= vector@.len,
            r is Err ==> *final(self) == *old(self),
            r matches Err(e) ==> out_of_bounds(e, old(self)@, vector@.len),
            r is Ok ==> final(self)@ == (ViewModel {
                offset: old(self)@.offset,
                deref: bound(old(self)@, vector@.alloc, vector@.start),
            }),
    {
        proof {
            let ld = self.deref.leading_dimension as int;
            let cols = self.deref.cols as int;
            assert(ld * cols >= 0) by (nonlinear_arith)
                requires
                    ld >= 0,
                    cols >= 0,
            ;
        }
        let extent = match self.deref.leading_dimension.checked_mul(self.deref.cols) {
            Some(span) => span.checked_add(self.offset),
            None => None,
        };
        let extent = match extent {
            Some(e) => e,
            None => {
                let m = Mismatch {
                    left_name: "self.offset+self.deref.leading_dimension*self.deref.cols".to_owned(),
                    left: usize::MAX,
                    right_name: "vector.len()".to_owned(),
                    right: vector.len(),
                };
                return Err(DeviceError::OutOfBounds(m));
            },
        };
        match assert_infeq_usize(
            extent,
            "self.offset+self.deref.leading_dimension*self.deref.cols",
            vector.len(),
            "vector.len()",
        ) {
            Err(m) => Err(DeviceError::OutOfBounds(m)),
            Ok(()) => {
                proof {
                    use_type_invariant(&self.deref);
                }
                let start = vector.ptr();
                let ptr = start.add(self.offset);
                let deref = CuMatrixDeref {
                    rows: self.deref.rows,
                    cols: self.deref.cols,
                    len: self.deref.len,
                    leading_dimension: self.deref.leading_dimension,
                    ptr: Some(ptr),
                };
                *self = CuMatrixView { offset: self.offset, deref };
                Ok(())
            },
        }
    }
}

/// The shape of `v`, bound to the buffer whose first element lies at index
/// `start` of allocation `alloc`.
pub open spec fn bound(v: ViewModel, alloc: usize, start: int) -> MatrixModel {
    MatrixModel {
        rows: v.deref.rows,
        cols: v.deref.cols,
        ld: v.deref.ld,
        ptr: Some(DevicePtr { alloc, offset: (start + v.offset) as usize }),
    }
}

/// How many elements, from the start of a buffer, the matrix `v` reaches;
/// `usize::MAX` where that number is larger.
pub open spec fn reach(v: ViewModel) -> int {
    if v.offset + v.deref.extent() <= usize::MAX {
        v.offset + v.deref.extent()
    } else {
        usize::MAX as int
    }
}

/// `e` reports that the matrix `v` would reach past a buffer of `len` elements.
pub open spec fn out_of_bounds(e: DeviceError, v: ViewModel, len: int) -> bool {
    e matches DeviceError::OutOfBounds(m) && m.left_name@
        == "self.offset+self.deref.leading_dimension*self.deref.cols"@ && m.left == reach(v)
        && m.right_name@ == "vector.len()"@ && m.right == len
}

} // verus!
