//! Eigenvalue and eigenvector argument transcoders.

use vstd::prelude::*;

verus! {

/// Native constant for sorting eigenvalues ascending in numerical value.
pub const EIGEN_SORT_VAL_ASC: i32 = 0;
/// Native constant for sorting eigenvalues descending in numerical value.
pub const EIGEN_SORT_VAL_DESC: i32 = 1;
/// Native constant for sorting eigenvalues ascending in magnitude.
pub const EIGEN_SORT_ABS_ASC: i32 = 2;
/// Native constant for sorting eigenvalues descending in magnitude.
pub const EIGEN_SORT_ABS_DESC: i32 = 3;

/// The order eigenvalues and their eigenvectors are sorted into.
#[derive(Clone, Copy, Debug, PartialEq, Eq, Structural)]
pub enum Sort {
    /// ascending order in numerical value
    Asc,
    /// descending order in numerical value
    Desc,
    /// ascending order in magnitude
    AbsAsc,
    /// descending order in magnitude
    AbsDesc,
}

impl Sort {
    /// The native constant of this variant.
    pub open spec fn spec_code(self) -> i32 {
        match self {
            Sort::Asc => EIGEN_SORT_VAL_ASC,
            Sort::Desc => EIGEN_SORT_VAL_DESC,
            Sort::AbsAsc => EIGEN_SORT_ABS_ASC,
            Sort::AbsDesc => EIGEN_SORT_ABS_DESC,
        }
    }

    /// The variant a native constant decodes to, if any.
    pub open spec fn spec_of_code(c: i32) -> Option<Sort> {
        if c == EIGEN_SORT_VAL_ASC {
            Some(Sort::Asc)
        } else if c == EIGEN_SORT_VAL_DESC {
            Some(Sort::Desc)
        } else if c == EIGEN_SORT_ABS_ASC {
            Some(Sort::AbsAsc)
        } else if c == EIGEN_SORT_ABS_DESC {
            Some(Sort::AbsDesc)
        } else {
            None
        }
    }

    /// Encode this variant as its native constant; total, never fails.
    pub fn to_native(self) -> (c: i32)
        ensures
            c == self.spec_code(),
            Self::spec_of_code(c) == Some(self),
    {
        match self {
            Sort::Asc => EIGEN_SORT_VAL_ASC,
            Sort::Desc => EIGEN_SORT_VAL_DESC,
            Sort::AbsAsc => EIGEN_SORT_ABS_ASC,
            Sort::AbsDesc => EIGEN_SORT_ABS_DESC,
        }
    }

    /// Decode a native constant; `None` on a code outside the closed
    /// set, which the fixed native ABI never produces.
    pub fn from_native(c: i32) -> (r: Option<Sort>)
        ensures
            r == Self::spec_of_code(c),
            (r matches Some(v) ==> v.spec_code() == c),
    {
        if c == EIGEN_SORT_VAL_ASC {
            Some(Sort::Asc)
        } else if c == EIGEN_SORT_VAL_DESC {
            Some(Sort::Desc)
        } else if c == EIGEN_SORT_ABS_ASC {
            Some(Sort::AbsAsc)
        } else if c == EIGEN_SORT_ABS_DESC {
            Some(Sort::AbsDesc)
        } else {
            None
        }
    }
}

} // verus!
