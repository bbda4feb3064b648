//! A safety layer for a large, stateful, pointer-based numerical library.
//!
//! The numerical routines themselves are opaque collaborators reached
//! through a C ABI; this crate provides the discipline that must
//! surround every call into them:
//!
//! * an error taxonomy decoding the native integer status codes into
//!   a closed, matchable [`Error`] enumeration, and back, plus the
//!   registry for the single process-wide error-handler callback
//!   ([`error`]);
//! * an ownership wrapper for native handles with an owned mode and two
//!   non-owning view modes, enforcing single-writer-or-multiple-readers
//!   aliasing and release-exactly-once ([`handle`]);
//! * typed data views — vectors and matrices — that keep shape metadata
//!   consistent with the underlying handle and check shapes before any
//!   native routine is reached ([`vector`], [`matrix`]);
//! * call-through operations over those views ([`blas`], [`matrix`]);
//! * stateless transcoders between small closed argument enumerations
//!   and the fixed native integer constants ([`blas`], [`cblas`],
//!   [`eigen`], [`enums`], [`sf`]);
//! * the coefficient and root-set shapes of the polynomial solvers
//!   ([`polynomials`]).

pub mod blas;
pub mod cblas;
pub mod eigen;
pub mod enums;
pub mod error;
pub mod handle;
pub mod matrix;
pub mod polynomials;
pub mod sf;
pub mod vector;

pub use error::Error;
