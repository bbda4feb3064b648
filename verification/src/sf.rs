//! Special-function argument transcoders and argument checks.

use crate::error::Error;
use vstd::prelude::*;

verus! {

/// The range check the Mathieu array call-throughs run before their
/// native routine: characteristic orders from `order_min` to
/// `order_max` are requested into an output array of length `len`.
///
/// Returns `Ok(())` exactly when `order_min <= order_max` and the span
/// `order_max - order_min` is at most `len`, and [`Error::Invalid`]
/// otherwise.
pub fn check_order_range(order_min: i32, order_max: i32, len: usize) -> (r: Result<(), Error>)
    ensures
        r is Ok <==> order_min <= order_max && order_max - order_min <= len,
        !(order_min <= order_max && order_max - order_min <= len) ==> r == Err::<(), Error>(
            Error::Invalid,
        ),
{
    if order_max < order_min {
        return Err(Error::Invalid);
    }
    let span = order_max as i64 - order_min as i64;
    if span as u64 > len as u64 {
        return Err(Error::Invalid);
    }
    Ok(())
}

/// The range check the Bessel array call-throughs run before their
/// native routine: function orders from `nmin` to `nmax` inclusive are
/// requested into an output array of length `len`.
///
/// Returns `Ok(())` exactly when `nmin <= nmax` and the span
/// `nmax - nmin` is strictly below `len`, so that all values fit, and
/// [`Error::Invalid`] otherwise.
pub fn check_order_array(nmin: u32, nmax: u32, len: usize) -> (r: Result<(), Error>)
    ensures
        r is Ok <==> nmin <= nmax && nmax - nmin < len,
        !(nmin <= nmax && nmax - nmin < len) ==> r == Err::<(), Error>(Error::Invalid),
{
    if nmax < nmin {
        return Err(Error::Invalid);
    }
    let span = nmax - nmin;
    if span as u64 >= len as u64 {
        return Err(Error::Invalid);
    }
    Ok(())
}

/// Native constant for double-precision evaluation.
pub const PREC_DOUBLE: u32 = 0;
/// Native constant for single-precision evaluation.
pub const PREC_SINGLE: u32 = 1;
/// Native constant for approximate evaluation.
pub const PREC_APPROX: u32 = 2;

/// The goal of the wrapped library is to achieve double precision
/// accuracy wherever possible.  However the cost of evaluating some
/// special functions to double precision can be significant,
/// particularly where very high order terms are required.  In these
/// cases a mode argument of type [`Prec`] allows the accuracy of the
/// function to be reduced in order to improve performance.
#[derive(Clone, Copy, Debug, PartialEq, Eq, Structural)]
pub enum Prec {
    /// Double-precision, a relative accuracy of approximately
    /// $2 · 10^{-16}$.
    Double,
    /// Single-precision, a relative accuracy of approximately $10^{-7}$.
    Single,
    /// Approximate values, a relative accuracy of approximately
    /// $5 · 10^{-4}$.
    Approx,
}

impl Prec {
    /// The native constant of this variant.
    pub open spec fn spec_code(self) -> u32 {
        match self {
            Prec::Double => PREC_DOUBLE,
            Prec::Single => PREC_SINGLE,
            Prec::Approx => PREC_APPROX,
        }
    }

    /// The variant a native constant decodes to, if any.
    pub open spec fn spec_of_code(c: u32) -> Option<Prec> {
        if c == PREC_DOUBLE {
            Some(Prec::Double)
        } else if c == PREC_SINGLE {
            Some(Prec::Single)
        } else if c == PREC_APPROX {
            Some(Prec::Approx)
        } else {
            None
        }
    }

    /// Encode this variant as its native constant; total, never fails.
    pub fn to_native(self) -> (c: u32)
        ensures
            c == self.spec_code(),
            Self::spec_of_code(c) == Some(self),
    {
        match self {
            Prec::Double => PREC_DOUBLE,
            Prec::Single => PREC_SINGLE,
            Prec::Approx => PREC_APPROX,
        }
    }

    /// Decode a native constant; `None` on a code outside the closed
    /// set, which the fixed native ABI never produces.
    pub fn from_native(c: u32) -> (r: Option<Prec>)
        ensures
            r == Self::spec_of_code(c),
            (r matches Some(v) ==> v.spec_code() == c),
    {
        if c == PREC_DOUBLE {
            Some(Prec::Double)
        } else if c == PREC_SINGLE {
            Some(Prec::Single)
        } else if c == PREC_APPROX {
            Some(Prec::Approx)
        } else {
            None
        }
    }
}

} // verus!
