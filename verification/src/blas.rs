//! Linear-algebra call-throughs and their argument transcoders.
//!
//! The enumerations here transcode between closed Rust-level argument
//! kinds and the integer constants the native ABI fixes for them; the
//! operations are call-throughs: they check shapes, take the views the
//! borrowing discipline grants, run the native routine and decode its
//! status code.  Data-movement routines are modelled in the pool; the
//! arithmetic kernels stay behind the C ABI.

use crate::error::Error;
use crate::handle::HandlePool;
use crate::handle::spec_copy_blocked;
use crate::handle::spec_swap_blocked;
use crate::handle::spec_tick;
use crate::vector::Vector;
use crate::vector::check_equal_len;
use vstd::prelude::*;

verus! {

/// Native constant for row-major matrix storage.
pub const CBLAS_ROW_MAJOR: i32 = 101;
/// Native constant for column-major matrix storage.
pub const CBLAS_COL_MAJOR: i32 = 102;
/// Native constant for using a matrix as it is.
pub const CBLAS_NO_TRANS: i32 = 111;
/// Native constant for using a matrix transposed.
pub const CBLAS_TRANS: i32 = 112;
/// Native constant for using a matrix conjugate-transposed.
pub const CBLAS_CONJ_TRANS: i32 = 113;
/// Native constant for the upper triangle.
pub const CBLAS_UPPER: i32 = 121;
/// Native constant for the lower triangle.
pub const CBLAS_LOWER: i32 = 122;
/// Native constant for a non-unit diagonal.
pub const CBLAS_NON_UNIT: i32 = 131;
/// Native constant for a unit diagonal.
pub const CBLAS_UNIT: i32 = 132;
/// Native constant for multiplying from the left.
pub const CBLAS_LEFT: i32 = 141;
/// Native constant for multiplying from the right.
pub const CBLAS_RIGHT: i32 = 142;

/// How a matrix argument enters a product.
#[derive(Clone, Copy, Debug, PartialEq, Eq, Structural)]
pub enum Transpose {
    NoTranspose,
    Transpose,
    ConjugateTranspose,
}

impl Transpose {
    /// The native constant of this variant.
    pub open spec fn spec_code(self) -> i32 {
        match self {
            Transpose::NoTranspose => CBLAS_NO_TRANS,
            Transpose::Transpose => CBLAS_TRANS,
            Transpose::ConjugateTranspose => CBLAS_CONJ_TRANS,
        }
    }

    /// The variant a native constant decodes to, if any.
    pub open spec fn spec_of_code(c: i32) -> Option<Transpose> {
        if c == CBLAS_NO_TRANS {
            Some(Transpose::NoTranspose)
        } else if c == CBLAS_TRANS {
            Some(Transpose::Transpose)
        } else if c == CBLAS_CONJ_TRANS {
            Some(Transpose::ConjugateTranspose)
        } else {
            None
        }
    }

    /// Encode this variant as its native constant; total, never fails.
    pub fn to_native(self) -> (c: i32)
        ensures
            c == self.spec_code(),
            Self::spec_of_code(c) == Some(self),
    {
        match self {
            Transpose::NoTranspose => CBLAS_NO_TRANS,
            Transpose::Transpose => CBLAS_TRANS,
            Transpose::ConjugateTranspose => CBLAS_CONJ_TRANS,
        }
    }

    /// Decode a native constant; `None` on a code outside the closed
    /// set, which the fixed native ABI never produces.
    pub fn from_native(c: i32) -> (r: Option<Transpose>)
        ensures
            r == Self::spec_of_code(c),
            (r matches Some(v) ==> v.spec_code() == c),
    {
        if c == CBLAS_NO_TRANS {
            Some(Transpose::NoTranspose)
        } else if c == CBLAS_TRANS {
            Some(Transpose::Transpose)
        } else if c == CBLAS_CONJ_TRANS {
            Some(Transpose::ConjugateTranspose)
        } else {
            None
        }
    }
}

/// Which triangle of a symmetric or triangular matrix is stored.
#[derive(Clone, Copy, Debug, PartialEq, Eq, Structural)]
pub enum Uplo {
    Upper,
    Lower,
}

impl Uplo {
    /// The native constant of this variant.
    pub open spec fn spec_code(self) -> i32 {
        match self {
            Uplo::Upper => CBLAS_UPPER,
            Uplo::Lower => CBLAS_LOWER,
        }
    }

    /// The variant a native constant decodes to, if any.
    pub open spec fn spec_of_code(c: i32) -> Option<Uplo> {
        if c == CBLAS_UPPER {
            Some(Uplo::Upper)
        } else if c == CBLAS_LOWER {
            Some(Uplo::Lower)
        } else {
            None
        }
    }

    /// Encode this variant as its native constant; total, never fails.
    pub fn to_native(self) -> (c: i32)
        ensures
            c == self.spec_code(),
            Self::spec_of_code(c) == Some(self),
    {
        match self {
            Uplo::Upper => CBLAS_UPPER,
            Uplo::Lower => CBLAS_LOWER,
        }
    }

    /// Decode a native constant; `None` on a code outside the closed
    /// set, which the fixed native ABI never produces.
    pub fn from_native(c: i32) -> (r: Option<Uplo>)
        ensures
            r == Self::spec_of_code(c),
            (r matches Some(v) ==> v.spec_code() == c),
    {
        if c == CBLAS_UPPER {
            Some(Uplo::Upper)
        } else if c == CBLAS_LOWER {
            Some(Uplo::Lower)
        } else {
            None
        }
    }
}

/// The storage order of a matrix.
#[derive(Clone, Copy, Debug, PartialEq, Eq, Structural)]
pub enum Order {
    RowMajor,
    ColumnMajor,
}

impl Order {
    /// The native constant of this variant.
    pub open spec fn spec_code(self) -> i32 {
        match self {
            Order::RowMajor => CBLAS_ROW_MAJOR,
            Order::ColumnMajor => CBLAS_COL_MAJOR,
        }
    }

    /// The variant a native constant decodes to, if any.
    pub open spec fn spec_of_code(c: i32) -> Option<Order> {
        if c == CBLAS_ROW_MAJOR {
            Some(Order::RowMajor)
        } else if c == CBLAS_COL_MAJOR {
            Some(Order::ColumnMajor)
        } else {
            None
        }
    }

    /// Encode this variant as its native constant; total, never fails.
    pub fn to_native(self) -> (c: i32)
        ensures
            c == self.spec_code(),
            Self::spec_of_code(c) == Some(self),
    {
        match self {
            Order::RowMajor => CBLAS_ROW_MAJOR,
            Order::ColumnMajor => CBLAS_COL_MAJOR,
        }
    }

    /// Decode a native constant; `None` on a code outside the closed
    /// set, which the fixed native ABI never produces.
    pub fn from_native(c: i32) -> (r: Option<Order>)
        ensures
            r == Self::spec_of_code(c),
            (r matches Some(v) ==> v.spec_code() == c),
    {
        if c == CBLAS_ROW_MAJOR {
            Some(Order::RowMajor)
        } else if c == CBLAS_COL_MAJOR {
            Some(Order::ColumnMajor)
        } else {
            None
        }
    }
}

/// Which side a matrix factor multiplies from.
#[derive(Clone, Copy, Debug, PartialEq, Eq, Structural)]
pub enum Side {
    Left,
    Right,
}

impl Side {
    /// The native constant of this variant.
    pub open spec fn spec_code(self) -> i32 {
        match self {
            Side::Left => CBLAS_LEFT,
            Side::Right => CBLAS_RIGHT,
        }
    }

    /// The variant a native constant decodes to, if any.
    pub open spec fn spec_of_code(c: i32) -> Option<Side> {
        if c == CBLAS_LEFT {
            Some(Side::Left)
        } else if c == CBLAS_RIGHT {
            Some(Side::Right)
        } else {
            None
        }
    }

    /// Encode this variant as its native constant; total, never fails.
    pub fn to_native(self) -> (c: i32)
        ensures
            c == self.spec_code(),
            Self::spec_of_code(c) == Some(self),
    {
        match self {
            Side::Left => CBLAS_LEFT,
            Side::Right => CBLAS_RIGHT,
        }
    }

    /// Decode a native constant; `None` on a code outside the closed
    /// set, which the fixed native ABI never produces.
    pub fn from_native(c: i32) -> (r: Option<Side>)
        ensures
            r == Self::spec_of_code(c),
            (r matches Some(v) ==> v.spec_code() == c),
    {
        if c == CBLAS_LEFT {
            Some(Side::Left)
        } else if c == CBLAS_RIGHT {
            Some(Side::Right)
        } else {
            None
        }
    }
}

/// Whether a triangular matrix has a unit diagonal.
#[derive(Clone, Copy, Debug, PartialEq, Eq, Structural)]
pub enum Diag {
    NonUnit,
    Unit,
}

impl Diag {
    /// The native constant of this variant.
    pub open spec fn spec_code(self) -> i32 {
        match self {
            Diag::NonUnit => CBLAS_NON_UNIT,
            Diag::Unit => CBLAS_UNIT,
        }
    }

    /// The variant a native constant decodes to, if any.
    pub open spec fn spec_of_code(c: i32) -> Option<Diag> {
        if c == CBLAS_NON_UNIT {
            Some(Diag::NonUnit)
        } else if c == CBLAS_UNIT {
            Some(Diag::Unit)
        } else {
            None
        }
    }

    /// Encode this variant as its native constant; total, never fails.
    pub fn to_native(self) -> (c: i32)
        ensures
            c == self.spec_code(),
            Self::spec_of_code(c) == Some(self),
    {
        match self {
            Diag::NonUnit => CBLAS_NON_UNIT,
            Diag::Unit => CBLAS_UNIT,
        }
    }

    /// Decode a native constant; `None` on a code outside the closed
    /// set, which the fixed native ABI never produces.
    pub fn from_native(c: i32) -> (r: Option<Diag>)
        ensures
            r == Self::spec_of_code(c),
            (r matches Some(v) ==> v.spec_code() == c),
    {
        if c == CBLAS_NON_UNIT {
            Some(Diag::NonUnit)
        } else if c == CBLAS_UNIT {
            Some(Diag::Unit)
        } else {
            None
        }
    }
}

/// Copy the elements of the vector `x` into the vector `y`.
///
/// The shape check comes first: on unequal lengths the operation fails
/// with [`Error::BadLength`] and the native routine is never invoked.
/// Then the borrowing discipline takes a shared view of `x` and the
/// exclusive view of `y` for the duration of the call, so `x` and `y`
/// must be distinct handles with no exclusive view live on `x` and no
/// view at all live on `y`.
pub fn copy<T: Copy>(pool: &mut HandlePool<T>, x: &Vector, y: &Vector) -> (r: Result<(), Error>)
    requires
        old(pool).wf(),
    ensures
        final (pool).wf(),
        final (pool).num_slots() == old(pool).num_slots(),
        final (pool).spec_capacity() == old(pool).spec_capacity(),
        final (pool).release_count() == old(pool).release_count(),
        final (pool).live_handle_count() == old(pool).live_handle_count(),
        x.spec_len() != y.spec_len() ==> r == Err::<(), Error>(Error::BadLength) && old(
            pool,
        ).same_pool(*final (pool)),
        x.spec_len() == y.spec_len() ==> (match spec_copy_blocked(*old(pool), x.id(), y.id()) {
            Some(e) => r == Err::<(), Error>(e) && old(pool).same_pool(*final (pool)),
            None => {
                &&& final (pool).routine_count() == spec_tick(old(pool).routine_count())
                &&& old(pool).unchanged_except(*final (pool), y.id())
                &&& final (pool).is_live(y.id())
                &&& final (pool).state(y.id()) == old(pool).state(y.id())
                &&& (if old(pool).data(x.id()).len() == old(pool).data(y.id()).len() {
                    &&& r is Ok
                    &&& final (pool).data(y.id()) == old(pool).data(x.id())
                } else {
                    &&& r == Err::<(), Error>(Error::BadLength)
                    &&& final (pool).data(y.id()) == old(pool).data(y.id())
                })
            },
        }),
{
    match check_equal_len(x, y) {
        Err(e) => {
            return Err(e);
        },
        Ok(()) => {
        },
    }
    pool.guarded_copy(x.handle(), y.handle())
}

/// Exchange the elements of the vectors `x` and `y`.
///
/// The shape check comes first: on unequal lengths the operation fails
/// with [`Error::BadLength`] and the native routine is never invoked.
/// Then the borrowing discipline takes the exclusive view of both
/// vectors for the duration of the call, so `x` and `y` must be
/// distinct handles with no view at all live on either.
pub fn swap<T: Copy>(pool: &mut HandlePool<T>, x: &Vector, y: &Vector) -> (r: Result<(), Error>)
    requires
        old(pool).wf(),
    ensures
        final (pool).wf(),
        final (pool).num_slots() == old(pool).num_slots(),
        final (pool).spec_capacity() == old(pool).spec_capacity(),
        final (pool).release_count() == old(pool).release_count(),
        final (pool).live_handle_count() == old(pool).live_handle_count(),
        x.spec_len() != y.spec_len() ==> r == Err::<(), Error>(Error::BadLength) && old(
            pool,
        ).same_pool(*final (pool)),
        x.spec_len() == y.spec_len() ==> (match spec_swap_blocked(*old(pool), x.id(), y.id()) {
            Some(e) => r == Err::<(), Error>(e) && old(pool).same_pool(*final (pool)),
            None => {
                &&& final (pool).routine_count() == spec_tick(old(pool).routine_count())
                &&& old(pool).unchanged_except2(*final (pool), x.id(), y.id())
                &&& final (pool).is_live(x.id()) && final (pool).is_live(y.id())
                &&& final (pool).state(x.id()) == old(pool).state(x.id())
                &&& final (pool).state(y.id()) == old(pool).state(y.id())
                &&& (if old(pool).data(x.id()).len() == old(pool).data(y.id()).len() {
                    &&& r is Ok
                    &&& final (pool).data(x.id()) == old(pool).data(y.id())
                    &&& final (pool).data(y.id()) == old(pool).data(x.id())
                } else {
                    &&& r == Err::<(), Error>(Error::BadLength)
                    &&& final (pool).data(x.id()) == old(pool).data(x.id())
                    &&& final (pool).data(y.id()) == old(pool).data(y.id())
                })
            },
        }),
{
    match check_equal_len(x, y) {
        Err(e) => {
            return Err(e);
        },
        Ok(()) => {
        },
    }
    pool.guarded_swap(x.handle(), y.handle())
}

} // verus!
