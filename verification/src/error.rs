//! Error handling.
//!
//! The native library reports the outcome of every routine as a small
//! integer status code.  This module fixes that protocol as named
//! constants, decodes them into the closed [`Error`] enumeration and
//! back, and proves that the two directions invert each other.

use vstd::prelude::*;

verus! {

/// Native status code: the routine succeeded.
pub const GSL_SUCCESS: i32 = 0;
/// Native status code: plain failure.
pub const GSL_FAILURE: i32 = -1;
/// Native status code: the iteration has not converged yet.
pub const GSL_CONTINUE: i32 = -2;
/// Native status code: input domain error.
pub const GSL_EDOM: i32 = 1;
/// Native status code: output range error.
pub const GSL_ERANGE: i32 = 2;
/// Native status code: invalid pointer.
pub const GSL_EFAULT: i32 = 3;
/// Native status code: invalid argument supplied by user.
pub const GSL_EINVAL: i32 = 4;
/// Native status code: generic failure.
pub const GSL_EFAILED: i32 = 5;
/// Native status code: factorization failed.
pub const GSL_EFACTOR: i32 = 6;
/// Native status code: sanity check failed.
pub const GSL_ESANITY: i32 = 7;
/// Native status code: malloc failed.
pub const GSL_ENOMEM: i32 = 8;
/// Native status code: problem with a user-supplied function.
pub const GSL_EBADFUNC: i32 = 9;
/// Native status code: iterative process is out of control.
pub const GSL_ERUNAWAY: i32 = 10;
/// Native status code: exceeded the maximum number of iterations.
pub const GSL_EMAXITER: i32 = 11;
/// Native status code: tried to divide by zero.
pub const GSL_EZERODIV: i32 = 12;
/// Native status code: the user specified an invalid tolerance.
pub const GSL_EBADTOL: i32 = 13;
/// Native status code: failed to reach the specified tolerance.
pub const GSL_ETOL: i32 = 14;
/// Native status code: underflow.
pub const GSL_EUNDRFLW: i32 = 15;
/// Native status code: overflow.
pub const GSL_EOVRFLW: i32 = 16;
/// Native status code: loss of accuracy.
pub const GSL_ELOSS: i32 = 17;
/// Native status code: failed because of roundoff error.
pub const GSL_EROUND: i32 = 18;
/// Native status code: matrix or vector lengths are not conformant.
pub const GSL_EBADLEN: i32 = 19;
/// Native status code: matrix not square.
pub const GSL_ENOTSQR: i32 = 20;
/// Native status code: apparent singularity detected.
pub const GSL_ESING: i32 = 21;
/// Native status code: integral or series is divergent.
pub const GSL_EDIVERGE: i32 = 22;
/// Native status code: the requested feature is not supported by the hardware.
pub const GSL_EUNSUP: i32 = 23;
/// Native status code: the requested feature is not (yet) implemented.
pub const GSL_EUNIMPL: i32 = 24;
/// Native status code: cache limit exceeded.
pub const GSL_ECACHE: i32 = 25;
/// Native status code: table limit exceeded.
pub const GSL_ETABLE: i32 = 26;
/// Native status code: iteration is not making progress towards a solution.
pub const GSL_ENOPROG: i32 = 27;
/// Native status code: jacobian evaluations are not improving the solution.
pub const GSL_ENOPROGJ: i32 = 28;
/// Native status code: cannot reach the specified tolerance in F.
pub const GSL_ETOLF: i32 = 29;
/// Native status code: cannot reach the specified tolerance in X.
pub const GSL_ETOLX: i32 = 30;
/// Native status code: cannot reach the specified tolerance in gradient.
pub const GSL_ETOLG: i32 = 31;
/// Native status code: end of file.
pub const GSL_EOF: i32 = 32;

/// Errors of the wrapped library.
///
/// Every named variant stands for one fixed native status code; the
/// [`Error::Unknown`] variant carries any status code outside the named
/// set, so that decoding a native code is total and lossless.
#[derive(Clone, Copy, Debug, PartialEq, Eq, Structural)]
pub enum Error {
    Failure,
    /// iteration has not converged
    Continue,
    /// input domain error, e.g sqrt(-1)
    Domain,
    /// output range error, e.g. exp(1e100)
    Range,
    /// invalid pointer
    Fault,
    /// invalid argument supplied by user
    Invalid,
    /// generic failure
    Failed,
    /// factorization failed
    Factorization,
    /// sanity check failed - shouldn't happen
    Sanity,
    /// malloc failed
    NoMemory,
    /// Problem with user-supplied function
    BadFunction,
    /// iterative process is out of control
    RunAway,
    /// exceeded max number of iterations
    MaxIteration,
    /// tried to divide by zero
    ZeroDiv,
    /// user specified an invalid tolerance
    BadTolerance,
    /// failed to reach the specified tolerance
    Tolerance,
    /// underflow
    UnderFlow,
    /// overflow
    OverFlow,
    /// loss of accuracy
    Loss,
    /// failed because of roundoff error
    Round,
    /// matrix, vector lengths are not conformant
    BadLength,
    /// matrix not square
    NotSquare,
    /// apparent singularity detected
    Singularity,
    /// integral or series is divergent
    Diverge,
    /// requested feature is not supported by the hardware
    Unsupported,
    /// requested feature not (yet) implemented
    Unimplemented,
    /// cache limit exceeded
    Cache,
    /// table limit exceeded
    Table,
    /// iteration is not making progress towards solution
    NoProgress,
    /// jacobian evaluations are not improving the solution
    NoProgressJacobian,
    /// cannot reach the specified tolerance in F
    ToleranceF,
    /// cannot reach the specified tolerance in X
    ToleranceX,
    /// cannot reach the specified tolerance in gradient
    ToleranceG,
    /// end of file
    EOF,
    /// Unknown value.
    Unknown(i32),
}

/// The native status code that [`to_native_code`] produces for `Err(e)`.
pub open spec fn spec_error_code(e: Error) -> i32 {
    match e {
        Error::Failure => GSL_FAILURE,
        Error::Continue => GSL_CONTINUE,
        Error::Domain => GSL_EDOM,
        Error::Range => GSL_ERANGE,
        Error::Fault => GSL_EFAULT,
        Error::Invalid => GSL_EINVAL,
        Error::Failed => GSL_EFAILED,
        Error::Factorization => GSL_EFACTOR,
        Error::Sanity => GSL_ESANITY,
        Error::NoMemory => GSL_ENOMEM,
        Error::BadFunction => GSL_EBADFUNC,
        Error::RunAway => GSL_ERUNAWAY,
        Error::MaxIteration => GSL_EMAXITER,
        Error::ZeroDiv => GSL_EZERODIV,
        Error::BadTolerance => GSL_EBADTOL,
        Error::Tolerance => GSL_ETOL,
        Error::UnderFlow => GSL_EUNDRFLW,
        Error::OverFlow => GSL_EOVRFLW,
        Error::Loss => GSL_ELOSS,
        Error::Round => GSL_EROUND,
        Error::BadLength => GSL_EBADLEN,
        Error::NotSquare => GSL_ENOTSQR,
        Error::Singularity => GSL_ESING,
        Error::Diverge => GSL_EDIVERGE,
        Error::Unsupported => GSL_EUNSUP,
        Error::Unimplemented => GSL_EUNIMPL,
        Error::Cache => GSL_ECACHE,
        Error::Table => GSL_ETABLE,
        Error::NoProgress => GSL_ENOPROG,
        Error::NoProgressJacobian => GSL_ENOPROGJ,
        Error::ToleranceF => GSL_ETOLF,
        Error::ToleranceX => GSL_ETOLX,
        Error::ToleranceG => GSL_ETOLG,
        Error::EOF => GSL_EOF,
        Error::Unknown(c) => c,
    }
}

/// Whether `c` is one of the named failure codes of the native protocol.
pub open spec fn spec_is_named_code(c: i32) -> bool {
    c == GSL_FAILURE || c == GSL_CONTINUE || (GSL_EDOM <= c && c <= GSL_EOF)
}

/// The error that a nonzero native status code `c` decodes to.
pub open spec fn spec_error_of_code(c: i32) -> Error {
    if c == GSL_FAILURE {
        Error::Failure
    } else if c == GSL_CONTINUE {
        Error::Continue
    } else if c == GSL_EDOM {
        Error::Domain
    } else if c == GSL_ERANGE {
        Error::Range
    } else if c == GSL_EFAULT {
        Error::Fault
    } else if c == GSL_EINVAL {
        Error::Invalid
    } else if c == GSL_EFAILED {
        Error::Failed
    } else if c == GSL_EFACTOR {
        Error::Factorization
    } else if c == GSL_ESANITY {
        Error::Sanity
    } else if c == GSL_ENOMEM {
        Error::NoMemory
    } else if c == GSL_EBADFUNC {
        Error::BadFunction
    } else if c == GSL_ERUNAWAY {
        Error::RunAway
    } else if c == GSL_EMAXITER {
        Error::MaxIteration
    } else if c == GSL_EZERODIV {
        Error::ZeroDiv
    } else if c == GSL_EBADTOL {
        Error::BadTolerance
    } else if c == GSL_ETOL {
        Error::Tolerance
    } else if c == GSL_EUNDRFLW {
        Error::UnderFlow
    } else if c == GSL_EOVRFLW {
        Error::OverFlow
    } else if c == GSL_ELOSS {
        Error::Loss
    } else if c == GSL_EROUND {
        Error::Round
    } else if c == GSL_EBADLEN {
        Error::BadLength
    } else if c == GSL_ENOTSQR {
        Error::NotSquare
    } else if c == GSL_ESING {
        Error::Singularity
    } else if c == GSL_EDIVERGE {
        Error::Diverge
    } else if c == GSL_EUNSUP {
        Error::Unsupported
    } else if c == GSL_EUNIMPL {
        Error::Unimplemented
    } else if c == GSL_ECACHE {
        Error::Cache
    } else if c == GSL_ETABLE {
        Error::Table
    } else if c == GSL_ENOPROG {
        Error::NoProgress
    } else if c == GSL_ENOPROGJ {
        Error::NoProgressJacobian
    } else if c == GSL_ETOLF {
        Error::ToleranceF
    } else if c == GSL_ETOLX {
        Error::ToleranceX
    } else if c == GSL_ETOLG {
        Error::ToleranceG
    } else if c == GSL_EOF {
        Error::EOF
    } else {
        Error::Unknown(c)
    }
}

/// What [`from_native_code`] returns for any status code.
pub open spec fn spec_from_native(c: i32) -> Result<(), Error> {
    if c == GSL_SUCCESS {
        Ok(())
    } else {
        Err(spec_error_of_code(c))
    }
}

/// What [`to_native_code`] returns for any decoded outcome.
pub open spec fn spec_to_native(x: Result<(), Error>) -> i32 {
    match x {
        Ok(()) => GSL_SUCCESS,
        Err(e) => spec_error_code(e),
    }
}

/// What [`Error::message`] returns for each error.
pub open spec fn spec_message(e: Error) -> Seq<char> {
    match e {
        Error::Failure => "Failure"@,
        Error::Continue => "The iteration has not converged yet"@,
        Error::Domain => "Input domain error"@,
        Error::Range => "Output range error"@,
        Error::Fault => "Invalid pointer"@,
        Error::Invalid => "Invalid argument supplied by user"@,
        Error::Failed => "generic failure"@,
        Error::Factorization => "Factorization failed"@,
        Error::Sanity => "Sanity check failed - shouldn't happen"@,
        Error::NoMemory => "Malloc failed"@,
        Error::BadFunction => "Problem with user-supplied function"@,
        Error::RunAway => "Iterative process is out of control"@,
        Error::MaxIteration => "Exceeded max number of iterations"@,
        Error::ZeroDiv => "Tried to divide by zero"@,
        Error::BadTolerance => "Specified tolerance is invalid or theoretically unattainable"@,
        Error::Tolerance => "Failed to reach the specified tolerance"@,
        Error::UnderFlow => "Underflow"@,
        Error::OverFlow => "Overflow"@,
        Error::Loss => "Loss of accuracy"@,
        Error::Round => "Roundoff error"@,
        Error::BadLength => "Matrix/vector sizes are not conformant"@,
        Error::NotSquare => "Matrix not square"@,
        Error::Singularity => "Singularity or extremely bad function behavior detected"@,
        Error::Diverge => "Integral or series is divergent"@,
        Error::Unsupported => "The required feature is not supported by this hardware platform"@,
        Error::Unimplemented => "The requested feature is not (yet) implemented"@,
        Error::Cache => "Cache limit exceeded"@,
        Error::Table => "Table limit exceeded"@,
        Error::NoProgress => "Iteration is not making progress towards solution"@,
        Error::NoProgressJacobian => "Jacobian evaluations are not improving the solution"@,
        Error::ToleranceF => "Cannot reach the specified tolerance in F"@,
        Error::ToleranceX => "Cannot reach the specified tolerance in X"@,
        Error::ToleranceG => "Cannot reach the specified tolerance in gradient"@,
        Error::EOF => "End of file"@,
        Error::Unknown(_) => "Unknown error"@,
    }
}

/// Decode a nonzero native status code into the matching [`Error`].
///
/// Total over every 32-bit input: a code outside the named set comes back
/// as [`Error::Unknown`] carrying the original code, never as a panic.
pub fn error_of_code(c: i32) -> (e: Error)
    ensures
        e == spec_error_of_code(c),
        !spec_is_named_code(c) ==> e == Error::Unknown(c),
{
    if c == GSL_FAILURE {
        Error::Failure
    } else if c == GSL_CONTINUE {
        Error::Continue
    } else if c == GSL_EDOM {
        Error::Domain
    } else if c == GSL_ERANGE {
        Error::Range
    } else if c == GSL_EFAULT {
        Error::Fault
    } else if c == GSL_EINVAL {
        Error::Invalid
    } else if c == GSL_EFAILED {
        Error::Failed
    } else if c == GSL_EFACTOR {
        Error::Factorization
    } else if c == GSL_ESANITY {
        Error::Sanity
    } else if c == GSL_ENOMEM {
        Error::NoMemory
    } else if c == GSL_EBADFUNC {
        Error::BadFunction
    } else if c == GSL_ERUNAWAY {
        Error::RunAway
    } else if c == GSL_EMAXITER {
        Error::MaxIteration
    } else if c == GSL_EZERODIV {
        Error::ZeroDiv
    } else if c == GSL_EBADTOL {
        Error::BadTolerance
    } else if c == GSL_ETOL {
        Error::Tolerance
    } else if c == GSL_EUNDRFLW {
        Error::UnderFlow
    } else if c == GSL_EOVRFLW {
        Error::OverFlow
    } else if c == GSL_ELOSS {
        Error::Loss
    } else if c == GSL_EROUND {
        Error::Round
    } else if c == GSL_EBADLEN {
        Error::BadLength
    } else if c == GSL_ENOTSQR {
        Error::NotSquare
    } else if c == GSL_ESING {
        Error::Singularity
    } else if c == GSL_EDIVERGE {
        Error::Diverge
    } else if c == GSL_EUNSUP {
        Error::Unsupported
    } else if c == GSL_EUNIMPL {
        Error::Unimplemented
    } else if c == GSL_ECACHE {
        Error::Cache
    } else if c == GSL_ETABLE {
        Error::Table
    } else if c == GSL_ENOPROG {
        Error::NoProgress
    } else if c == GSL_ENOPROGJ {
        Error::NoProgressJacobian
    } else if c == GSL_ETOLF {
        Error::ToleranceF
    } else if c == GSL_ETOLX {
        Error::ToleranceX
    } else if c == GSL_ETOLG {
        Error::ToleranceG
    } else if c == GSL_EOF {
        Error::EOF
    } else {
        Error::Unknown(c)
    }
}

/// Translate a native status code into a structured outcome.
///
/// The success sentinel maps to `Ok(())`; every named failure code maps to
/// its named variant; every other code maps to [`Error::Unknown`] carrying
/// the code.  No input panics.
pub fn from_native_code(code: i32) -> (r: Result<(), Error>)
    ensures
        r == spec_from_native(code),
        r is Ok <==> code == GSL_SUCCESS,
        code != GSL_SUCCESS && !spec_is_named_code(code) ==> r == Err::<(), Error>(
            Error::Unknown(code),
        ),
{
    if code == GSL_SUCCESS {
        Ok(())
    } else {
        Err(error_of_code(code))
    }
}

/// Translate a structured outcome back into the native status code.
///
/// This is the exact inverse of [`from_native_code`]: encoding any decoded
/// outcome yields the original code.
pub fn to_native_code(x: Result<(), Error>) -> (code: i32)
    ensures
        code == spec_to_native(x),
        x is Ok ==> spec_from_native(code) is Ok,
        (match x {
            Ok(_) => true,
            Err(e) => !spec_is_unknown_named(e) ==> spec_from_native(code) == Err::<(), Error>(e),
        }),
{
    match x {
        Ok(()) => GSL_SUCCESS,
        Err(e) => e.to_code(),
    }
}

/// Whether `e` is `Unknown(c)` for a code `c` that the named set covers,
/// the one shape of error value that does not survive a round trip
/// through the native code space.
pub open spec fn spec_is_unknown_named(e: Error) -> bool {
    e matches Error::Unknown(c) && (spec_is_named_code(c) || c == GSL_SUCCESS)
}

impl Error {
    /// The native status code of this error.
    pub fn to_code(self) -> (c: i32)
        ensures
            c == spec_error_code(self),
    {
        match self {
            Error::Failure => GSL_FAILURE,
            Error::Continue => GSL_CONTINUE,
            Error::Domain => GSL_EDOM,
            Error::Range => GSL_ERANGE,
            Error::Fault => GSL_EFAULT,
            Error::Invalid => GSL_EINVAL,
            Error::Failed => GSL_EFAILED,
            Error::Factorization => GSL_EFACTOR,
            Error::Sanity => GSL_ESANITY,
            Error::NoMemory => GSL_ENOMEM,
            Error::BadFunction => GSL_EBADFUNC,
            Error::RunAway => GSL_ERUNAWAY,
            Error::MaxIteration => GSL_EMAXITER,
            Error::ZeroDiv => GSL_EZERODIV,
            Error::BadTolerance => GSL_EBADTOL,
            Error::Tolerance => GSL_ETOL,
            Error::UnderFlow => GSL_EUNDRFLW,
            Error::OverFlow => GSL_EOVRFLW,
            Error::Loss => GSL_ELOSS,
            Error::Round => GSL_EROUND,
            Error::BadLength => GSL_EBADLEN,
            Error::NotSquare => GSL_ENOTSQR,
            Error::Singularity => GSL_ESING,
            Error::Diverge => GSL_EDIVERGE,
            Error::Unsupported => GSL_EUNSUP,
            Error::Unimplemented => GSL_EUNIMPL,
            Error::Cache => GSL_ECACHE,
            Error::Table => GSL_ETABLE,
            Error::NoProgress => GSL_ENOPROG,
            Error::NoProgressJacobian => GSL_ENOPROGJ,
            Error::ToleranceF => GSL_ETOLF,
            Error::ToleranceX => GSL_ETOLX,
            Error::ToleranceG => GSL_ETOLG,
            Error::EOF => GSL_EOF,
            Error::Unknown(c) => c,
        }
    }

    /// The human-readable description of this error.
    pub fn message(&self) -> (r: &'static str)
        ensures
            r@ == spec_message(*self),
    {
        match self {
            Error::Failure => "Failure",
            Error::Continue => "The iteration has not converged yet",
            Error::Domain => "Input domain error",
            Error::Range => "Output range error",
            Error::Fault => "Invalid pointer",
            Error::Invalid => "Invalid argument supplied by user",
            Error::Failed => "generic failure",
            Error::Factorization => "Factorization failed",
            Error::Sanity => "Sanity check failed - shouldn't happen",
            Error::NoMemory => "Malloc failed",
            Error::BadFunction => "Problem with user-supplied function",
            Error::RunAway => "Iterative process is out of control",
            Error::MaxIteration => "Exceeded max number of iterations",
            Error::ZeroDiv => "Tried to divide by zero",
            Error::BadTolerance => "Specified tolerance is invalid or theoretically unattainable",
            Error::Tolerance => "Failed to reach the specified tolerance",
            Error::UnderFlow => "Underflow",
            Error::OverFlow => "Overflow",
            Error::Loss => "Loss of accuracy",
            Error::Round => "Roundoff error",
            Error::BadLength => "Matrix/vector sizes are not conformant",
            Error::NotSquare => "Matrix not square",
            Error::Singularity => "Singularity or extremely bad function behavior detected",
            Error::Diverge => "Integral or series is divergent",
            Error::Unsupported => "The required feature is not supported by this hardware platform",
            Error::Unimplemented => "The requested feature is not (yet) implemented",
            Error::Cache => "Cache limit exceeded",
            Error::Table => "Table limit exceeded",
            Error::NoProgress => "Iteration is not making progress towards solution",
            Error::NoProgressJacobian => "Jacobian evaluations are not improving the solution",
            Error::ToleranceF => "Cannot reach the specified tolerance in F",
            Error::ToleranceX => "Cannot reach the specified tolerance in X",
            Error::ToleranceG => "Cannot reach the specified tolerance in gradient",
            Error::EOF => "End of file",
            Error::Unknown(_) => "Unknown error",
        }
    }

    /// Pair a native status code with a success payload: `Ok(x)` on the
    /// success sentinel, the decoded error otherwise.
    pub fn handle<T>(v: i32, x: T) -> (r: Result<T, Error>)
        ensures
            v == GSL_SUCCESS ==> (r matches Ok(y) && y == x),
            v != GSL_SUCCESS ==> r == Err::<T, Error>(spec_error_of_code(v)),
    {
        if v == GSL_SUCCESS {
            Ok(x)
        } else {
            Err(error_of_code(v))
        }
    }
}

/// The registry for the process-wide error-handler callback.
///
/// The native library supports a single global error hook, so at most one
/// handler is registered at a time; composing several observers into one
/// callback is the caller's business.  The registry starts **off**: the
/// native abort-on-error behavior is disabled at startup, so every native
/// failure is surfaced as a value, never as a process abort.  The native
/// global carries no synchronization, so a process must install handlers
/// from a single initialization point (or one master thread) only.
///
/// `H` is the caller's handler type, typically a function taking the
/// message, source file, line and decoded [`Error`] of a native failure.
pub struct HandlerRegistry<H> {
    handler: Option<H>,
}

/// The registry state after `set_handler(f)` on state `state`, paired with
/// what that call returns: the handler slot takes `f`, and the previous
/// occupant comes back so that it can be restored later.
pub open spec fn spec_set_handler<H>(state: Option<H>, f: Option<H>) -> (Option<H>, Option<H>) {
    (f, state)
}

impl<H> HandlerRegistry<H> {
    /// The currently registered handler, if any.
    pub closed spec fn spec_handler(self) -> Option<H> {
        self.handler
    }

    /// Create the registry in its startup state: no handler registered,
    /// native abort-on-error disabled.
    pub fn new() -> (r: Self)
        ensures
            r.spec_handler() is None,
    {
        HandlerRegistry { handler: None }
    }

    /// Register `f` as the process-wide error handler (or none), returning
    /// the previously registered handler so that it can be restored later.
    pub fn set_handler(&mut self, f: Option<H>) -> (prev: Option<H>)
        ensures
            (final (self).spec_handler(), prev) == spec_set_handler(
                old(self).spec_handler(),
                f,
            ),
    {
        let prev = self.handler.take();
        self.handler = f;
        prev
    }

    /// Turn the error handler off, returning the previously registered
    /// handler so that it can be restored later.
    pub fn set_handler_off(&mut self) -> (prev: Option<H>)
        ensures
            (final (self).spec_handler(), prev) == spec_set_handler(
                old(self).spec_handler(),
                None,
            ),
    {
        self.handler.take()
    }

    /// Whether a handler is currently registered.
    pub fn is_active(&self) -> (b: bool)
        ensures
            b == (self.spec_handler() is Some),
    {
        self.handler.is_some()
    }
}

/// Handler registry swap: installing a handler and then re-installing
/// whatever that call returned restores the registry state that was
/// observed before the first call, whatever it was.
pub proof fn lemma_set_handler_swap<H>(state: Option<H>, f: Option<H>)
    ensures
        ({
            let (installed, prev) = spec_set_handler(state, f);
            spec_set_handler(installed, prev).0 == state
        }),
{
}

/// Error round trip, decode-then-encode direction: re-encoding the outcome
/// decoded from any native status code yields that code again, for every
/// 32-bit code, named or not.
pub proof fn lemma_code_round_trip(code: i32)
    ensures
        spec_to_native(spec_from_native(code)) == code,
{
}

/// Error round trip, encode-then-decode direction: decoding the native
/// status code of any named error variant yields that variant again.
pub proof fn lemma_error_round_trip(e: Error)
    requires
        !(e is Unknown),
    ensures
        spec_from_native(spec_error_code(e)) == Err::<(), Error>(e),
{
}

} // verus!

