use vstd::prelude::*;

verus! {

/// Two named quantities that failed a check, with their values.
#[derive(Debug)]
pub struct Mismatch {
    pub left_name: String,
    pub left: usize,
    pub right_name: String,
    pub right: usize,
}

/// Why an operation on device buffers was refused.
#[derive(Debug)]
pub enum DeviceError {
    /// Two lengths that must be equal differ.
    LengthMismatch(Mismatch),
    /// A region would reach past the end of the buffer it is taken from.
    OutOfBounds(Mismatch),
    /// A kernel counts its elements in an `i32`, and this length does not fit.
    CountTooLarge { len: usize },
}

impl Mismatch {
    /// `self` names `a_name` with value `a` and `b_name` with value `b`.
    pub open spec fn describes(&self, a: usize, a_name: &str, b: usize, b_name: &str) -> bool {
        &&& self.left_name@ == a_name@
        &&& self.left == a
        &&& self.right_name@ == b_name@
        &&& self.right == b
    }
}

fn mismatch(a: usize, a_name: &str, b: usize, b_name: &str) -> (r: Mismatch)
    ensures
        r.describes(a, a_name, b, b_name),
{
    Mismatch { left_name: a_name.to_owned(), left: a, right_name: b_name.to_owned(), right: b }
}

/// Checks that `a == b`; otherwise reports both quantities by name.
pub fn assert_eq_usize(a: usize, a_name: &str, b: usize, b_name: &str) -> (r: Result<
    (),
    Mismatch,
>)
    ensures
        r is Ok <==> a == b,
        r matches Err(m) ==> m.describes(a, a_name, b, b_name),
{
    if a != b {
        Err(mismatch(a, a_name, b, b_name))
    } else {
        Ok(())
    }
}

/// Checks that `a <= b`; otherwise reports both quantities by name.
pub fn assert_infeq_usize(a: usize, a_name: &str, b: usize, b_name: &str) -> (r: Result<
    (),
    Mismatch,
>)
    ensures
        r is Ok <==> a <= b,
        r matches Err(m) ==> m.describes(a, a_name, b, b_name),
{
    if a > b {
        Err(mismatch(a, a_name, b, b_name))
    } else {
        Ok(())
    }
}

/// Checks that two lengths agree, as an operation on two buffers needs.
pub fn check_same_len(a: usize, a_name: &str, b: usize, b_name: &str) -> (r: Result<
    (),
    DeviceError,
>)
    ensures
        r is Ok <==> a == b,
        r matches Err(e) ==> e matches DeviceError::LengthMismatch(m) && m.describes(
            a,
            a_name,
            b,
            b_name,
        ),
{
    match assert_eq_usize(a, a_name, b, b_name) {
        Ok(()) => Ok(()),
        Err(m) => Err(DeviceError::LengthMismatch(m)),
    }
}

} // verus!
