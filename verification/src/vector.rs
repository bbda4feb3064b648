//! Typed vector views.
//!
//! A [`Vector`] composes an [`Owned`] handle with its length, the shape
//! metadata every routine needs.  The metadata is kept consistent with
//! what the handle actually holds ([`Vector::consistent`]), and any
//! operation taking two vectors checks their lengths against each other
//! before any native routine is reached — the native library does not
//! perform that check uniformly itself.

use crate::error::Error;
use crate::handle::BorrowState;
use crate::handle::HandlePool;
use crate::handle::Owned;
use crate::handle::live_views;
use vstd::prelude::*;

verus! {

/// A typed data view of a vector: the owned handle of the storage
/// together with the length the handle was allocated with.
#[derive(Debug)]
pub struct Vector {
    owned: Owned,
    length: usize,
}

impl Vector {
    /// The handle this vector owns.
    pub closed spec fn id(self) -> int {
        self.owned.id()
    }

    /// The length recorded in the shape metadata.
    pub closed spec fn spec_len(self) -> int {
        self.length as int
    }

    /// Shape consistency: the handle is live in `pool` and holds exactly
    /// as many elements as the metadata records.  Allocation establishes
    /// this and every operation of this crate preserves it.
    pub open spec fn consistent<T>(self, pool: HandlePool<T>) -> bool {
        &&& pool.is_live(self.id())
        &&& pool.data(self.id()).len() == self.spec_len()
    }

    /// The length of this vector: a pure metadata read, always succeeds.
    pub fn len(&self) -> (r: usize)
        ensures
            r == self.spec_len(),
    {
        self.length
    }

    /// Whether this vector has length zero.
    pub fn is_empty(&self) -> (r: bool)
        ensures
            r == (self.spec_len() == 0),
    {
        self.length == 0
    }

    /// The owned handle of this vector, for borrowing views of it.
    pub fn handle(&self) -> (r: &Owned)
        ensures
            r.id() == self.id(),
    {
        &self.owned
    }
}

/// Allocate a vector of `len` elements, all equal to `fill`, owned by the
/// returned view.
///
/// Fails with [`Error::NoMemory`] — the decoding of the null handle an
/// exhausted native allocator returns — if and only if the pool already
/// keeps its full capacity of handles live.
pub fn alloc_vector<T: Copy>(pool: &mut HandlePool<T>, len: usize, fill: T) -> (r: Result<
    Vector,
    Error,
>)
    requires
        old(pool).wf(),
    ensures
        final (pool).wf(),
        old(pool).counters_unchanged(*final (pool)),
        old(pool).unchanged_except(*final (pool), old(pool).num_slots()),
        (match r {
            Ok(v) => {
                &&& old(pool).live_handle_count() < old(pool).spec_capacity()
                &&& v.id() == old(pool).num_slots()
                &&& v.spec_len() == len
                &&& v.consistent(*final (pool))
                &&& final (pool).num_slots() == old(pool).num_slots() + 1
                &&& final (pool).live_handle_count() == old(pool).live_handle_count() + 1
                &&& final (pool).state(v.id()) == BorrowState::Idle
                &&& forall|i: int| 0 <= i < len ==> final (pool).data(v.id())[i] == fill
            },
            Err(e) => {
                &&& e == Error::NoMemory
                &&& old(pool).live_handle_count() >= old(pool).spec_capacity()
                &&& *final (pool) == *old(pool)
            },
        }),
{
    match pool.allocate(len, fill) {
        Ok(o) => Ok(Vector { owned: o, length: len }),
        Err(e) => Err(e),
    }
}

/// Release the storage of `v`, invoking the native release routine
/// exactly once, and only if no view into it is still live.
///
/// On failure the vector comes back untouched beside the error:
/// [`Error::Invalid`] while a view is live, [`Error::Fault`] if its
/// handle is not live in this pool.
pub fn free_vector<T: Copy>(pool: &mut HandlePool<T>, v: Vector) -> (r: Result<
    (),
    (Vector, Error),
>)
    requires
        old(pool).wf(),
    ensures
        final (pool).wf(),
        final (pool).num_slots() == old(pool).num_slots(),
        final (pool).spec_capacity() == old(pool).spec_capacity(),
        final (pool).routine_count() == old(pool).routine_count(),
        old(pool).unchanged_except(*final (pool), v.id()),
        (match r {
            Ok(()) => {
                &&& old(pool).is_live(v.id())
                &&& old(pool).state(v.id()) == BorrowState::Idle
                &&& !final (pool).is_live(v.id())
                &&& final (pool).release_count() == old(pool).release_count() + 1
                &&& final (pool).live_handle_count() == old(pool).live_handle_count() - 1
            },
            Err((v2, e)) => {
                &&& v2 == v
                &&& *final (pool) == *old(pool)
                &&& !old(pool).is_live(v.id()) ==> e == Error::Fault
                &&& old(pool).is_live(v.id()) ==> e == Error::Invalid && live_views(
                    old(pool).state(v.id()),
                ) > 0
            },
        }),
{
    let Vector { owned, length } = v;
    match pool.free(owned) {
        Ok(()) => Ok(()),
        Err((o, e)) => Err((Vector { owned: o, length }, e)),
    }
}

/// Check that two vectors report equal logical length, the test every
/// two-vector operation runs before reaching any native routine.
///
/// Returns `Ok(())` exactly when the lengths agree and
/// [`Error::BadLength`] exactly when they do not.
pub fn check_equal_len(x: &Vector, y: &Vector) -> (r: Result<(), Error>)
    ensures
        r is Ok <==> x.spec_len() == y.spec_len(),
        x.spec_len() != y.spec_len() ==> r == Err::<(), Error>(Error::BadLength),
{
    if x.len() == y.len() {
        Ok(())
    } else {
        Err(Error::BadLength)
    }
}

} // verus!

