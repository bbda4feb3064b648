//! Polynomials.
//!
//! A [`Poly`] borrows a coefficient slice; evaluation and root finding
//! are native routines reached through the C ABI, so only the shape of
//! the data and of the results lives here: the coefficient view and the
//! closed result kinds for the roots of quadratic and cubic equations.

use crate::error::Error;
use vstd::prelude::*;

verus! {

/// The length check the divided-difference constructors run before
/// their native routine: the two slices handed to them — points and
/// values, or coefficients and abscissas — must have one length.
///
/// Returns `Ok(())` exactly when the lengths agree and
/// [`Error::BadLength`] exactly when they do not.
pub fn check_same_len<T>(a: &[T], b: &[T]) -> (r: Result<(), Error>)
    ensures
        r is Ok <==> a@.len() == b@.len(),
        a@.len() != b@.len() ==> r == Err::<(), Error>(Error::BadLength),
{
    if a.len() == b.len() {
        Ok(())
    } else {
        Err(Error::BadLength)
    }
}

/// A polynomial $P(x) = c_0 + c_1 x + c_2 x^2 + \dots + c_{n-1} x^{n-1}$
/// given by the borrowed slice of its coefficients, constant term first.
pub struct Poly<'a, T>(&'a [T]);

impl<'a, T> Poly<'a, T> {
    /// The coefficients of this polynomial, constant term first.
    pub closed spec fn spec_coeffs(self) -> Seq<T> {
        self.0@
    }

    /// View the slice `coeffs` as the polynomial with those
    /// coefficients, constant term first.
    pub fn new(coeffs: &'a [T]) -> (r: Poly<'a, T>)
        ensures
            r.spec_coeffs() == coeffs@,
    {
        Poly(coeffs)
    }

    /// The number of coefficients of this polynomial.
    pub fn len(&self) -> (r: usize)
        ensures
            r == self.spec_coeffs().len(),
    {
        self.0.len()
    }

    /// Whether this polynomial has no coefficients at all.
    pub fn is_empty(&self) -> (r: bool)
        ensures
            r == (self.spec_coeffs().len() == 0),
    {
        self.0.is_empty()
    }
}

/// The real or complex roots of a quadratic equation, in ascending
/// order.  A single root is returned when the leading coefficient is
/// zero; coincident roots are not considered special and come back as
/// two equal values.
#[derive(Debug, Clone, Copy, PartialEq, Eq)]
pub enum QuadraticRoots<T> {
    NoRoots,
    One(T),
    Two(T, T),
}

/// The real roots of a cubic equation with unit leading coefficient, in
/// ascending order.  Coincident roots are not considered special and
/// come back as equal values.
#[derive(Debug, Clone, Copy, PartialEq, Eq)]
pub enum CubicRoots<T> {
    One(T),
    Three(T, T, T),
}

} // verus!
