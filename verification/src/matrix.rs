//! Typed matrix views.
//!
//! A [`Matrix`] composes an [`Owned`] handle with its row and column
//! counts, stored row-major in the handle's elements.  The shape
//! metadata is kept consistent with what the handle actually holds
//! ([`Matrix::consistent`]), element access is bounds-checked against
//! it, and any operation taking two matrices checks their shapes against
//! each other before any native routine is reached.

use crate::error::Error;
use crate::handle::ExclusiveView;
use crate::handle::HandlePool;
use crate::handle::Owned;
use crate::handle::SharedView;
use crate::handle::lemma_data_len_bound;
use crate::handle::live_views;
use crate::handle::spec_copy_blocked;
use crate::handle::spec_tick;
use vstd::prelude::*;

verus! {

/// A typed data view of a matrix: the owned handle of the storage
/// together with the row and column counts it was allocated with; the
/// elements lie row-major in the handle.
#[derive(Debug)]
pub struct Matrix {
    owned: Owned,
    rows: usize,
    cols: usize,
}

impl Matrix {
    /// The handle this matrix owns.
    pub closed spec fn id(self) -> int {
        self.owned.id()
    }

    /// The row count recorded in the shape metadata.
    pub closed spec fn spec_rows(self) -> int {
        self.rows as int
    }

    /// The column count recorded in the shape metadata.
    pub closed spec fn spec_cols(self) -> int {
        self.cols as int
    }

    /// Shape consistency: the handle is live in `pool` and holds exactly
    /// rows times columns elements.  Allocation establishes this and
    /// every operation of this crate preserves it.
    pub open spec fn consistent<T>(self, pool: HandlePool<T>) -> bool {
        &&& pool.is_live(self.id())
        &&& pool.data(self.id()).len() == self.spec_rows() * self.spec_cols()
    }

    /// The shape of this matrix, rows then columns: a pure metadata
    /// read, always succeeds.
    pub fn shape(&self) -> (r: (usize, usize))
        ensures
            r.0 == self.spec_rows(),
            r.1 == self.spec_cols(),
    {
        (self.rows, self.cols)
    }

    /// The owned handle of this matrix, for borrowing views of it.
    pub fn handle(&self) -> (r: &Owned)
        ensures
            r.id() == self.id(),
    {
        &self.owned
    }
}

/// Allocate a `rows` by `cols` matrix, all elements equal to `fill`,
/// owned by the returned view.
///
/// Fails with [`Error::NoMemory`] — the decoding of the null handle
/// an exhausted native allocator returns — if and only if the element
/// count overflows the machine's address space or the pool already
/// keeps its full capacity of handles live.
pub fn alloc_matrix<T: Copy>(pool: &mut HandlePool<T>, rows: usize, cols: usize, fill: T) -> (r:
    Result<Matrix, Error>)
    requires
        old(pool).wf(),
    ensures
        final (pool).wf(),
        old(pool).counters_unchanged(*final (pool)),
        old(pool).unchanged_except(*final (pool), old(pool).num_slots()),
        (match r {
            Ok(m) => {
                &&& rows * cols <= usize::MAX
                &&& old(pool).live_handle_count() < old(pool).spec_capacity()
                &&& m.id() == old(pool).num_slots()
                &&& m.spec_rows() == rows
                &&& m.spec_cols() == cols
                &&& m.consistent(*final (pool))
                &&& final (pool).num_slots() == old(pool).num_slots() + 1
                &&& final (pool).live_handle_count() == old(pool).live_handle_count() + 1
                &&& final (pool).state(m.id()) == crate::handle::BorrowState::Idle
                &&& forall|i: int| 0 <= i < rows * cols ==> final (pool).data(m.id())[i] == fill
            },
            Err(e) => {
                &&& e == Error::NoMemory
                &&& *final (pool) == *old(pool)
                &&& rows * cols > usize::MAX || old(pool).live_handle_count() >= old(
                    pool,
                ).spec_capacity()
            },
        }),
{
    let len: usize = match rows.checked_mul(cols) {
        Some(l) => l,
        None => {
            return Err(Error::NoMemory);
        },
    };
    match pool.allocate(len, fill) {
        Ok(o) => Ok(Matrix { owned: o, rows, cols }),
        Err(e) => Err(e),
    }
}

/// Release the storage of `m`, invoking the native release routine
/// exactly once, and only if no view into it is still live.
///
/// On failure the matrix comes back untouched beside the error:
/// [`Error::Invalid`] while a view is live, [`Error::Fault`] if its
/// handle is not live in this pool.
pub fn free_matrix<T: Copy>(pool: &mut HandlePool<T>, m: Matrix) -> (r: Result<
    (),
    (Matrix, Error),
>)
    requires
        old(pool).wf(),
    ensures
        final (pool).wf(),
        final (pool).num_slots() == old(pool).num_slots(),
        final (pool).spec_capacity() == old(pool).spec_capacity(),
        final (pool).routine_count() == old(pool).routine_count(),
        old(pool).unchanged_except(*final (pool), m.id()),
        (match r {
            Ok(()) => {
                &&& old(pool).is_live(m.id())
                &&& old(pool).state(m.id()) == crate::handle::BorrowState::Idle
                &&& !final (pool).is_live(m.id())
                &&& final (pool).release_count() == old(pool).release_count() + 1
                &&& final (pool).live_handle_count() == old(pool).live_handle_count() - 1
            },
            Err((m2, e)) => {
                &&& m2 == m
                &&& *final (pool) == *old(pool)
                &&& !old(pool).is_live(m.id()) ==> e == Error::Fault
                &&& old(pool).is_live(m.id()) ==> e == Error::Invalid && live_views(
                    old(pool).state(m.id()),
                ) > 0
            },
        }),
{
    let Matrix { owned, rows, cols } = m;
    match pool.free(owned) {
        Ok(()) => Ok(()),
        Err((o, e)) => Err((Matrix { owned: o, rows, cols }, e)),
    }
}

/// Read the element in row `i`, column `j` through a shared view:
/// bounds-checked access consistent with the read-only borrowing mode.
pub fn get<T: Copy>(pool: &HandlePool<T>, m: &Matrix, v: &SharedView, i: usize, j: usize) -> (r:
    Result<T, Error>)
    ensures
        i >= m.spec_rows() || j >= m.spec_cols() ==> r == Err::<T, Error>(Error::Invalid),
        i < m.spec_rows() && j < m.spec_cols() && i * m.spec_cols() + j <= usize::MAX ==> r
            == pool.spec_get(v.id(), i * m.spec_cols() + j),
        i < m.spec_rows() && j < m.spec_cols() && i * m.spec_cols() + j > usize::MAX ==> r
            == Err::<T, Error>(Error::Invalid),
        i < m.spec_rows() && j < m.spec_cols() && v.id() == m.id() && m.consistent(*pool) ==> r
            == Ok::<T, Error>(pool.data(m.id())[i * m.spec_cols() + j]),
{
    if i >= m.rows || j >= m.cols {
        return Err(Error::Invalid);
    }
    proof {
        if m.consistent(*pool) {
            lemma_data_len_bound(*pool, m.id());
            assert(i * m.spec_cols() + j < m.spec_rows() * m.spec_cols()) by (nonlinear_arith)
                requires
                    i < m.spec_rows(),
                    j < m.spec_cols(),
            ;
        }
    }
    let row_base: usize = match i.checked_mul(m.cols) {
        Some(b) => b,
        None => {
            return Err(Error::Invalid);
        },
    };
    let idx: usize = match row_base.checked_add(j) {
        Some(k) => k,
        None => {
            return Err(Error::Invalid);
        },
    };
    pool.get(v, idx)
}

/// Write the element in row `i`, column `j` through the exclusive view:
/// bounds-checked access consistent with the sole-writer borrowing mode.
///
/// Fails with [`Error::Invalid`] on indices out of bounds and with
/// [`Error::Fault`] on a view whose handle is not live; in both cases
/// the pool is untouched.
pub fn set<T: Copy>(
    pool: &mut HandlePool<T>,
    m: &Matrix,
    v: &ExclusiveView,
    i: usize,
    j: usize,
    value: T,
) -> (r: Result<(), Error>)
    requires
        old(pool).wf(),
    ensures
        final (pool).wf(),
        final (pool).num_slots() == old(pool).num_slots(),
        final (pool).live_handle_count() == old(pool).live_handle_count(),
        old(pool).counters_unchanged(*final (pool)),
        old(pool).unchanged_except(*final (pool), v.id()),
        i >= m.spec_rows() || j >= m.spec_cols() ==> r == Err::<(), Error>(Error::Invalid)
            && *final (pool) == *old(pool),
        i < m.spec_rows() && j < m.spec_cols() && i * m.spec_cols() + j > usize::MAX ==> r
            == Err::<(), Error>(Error::Invalid) && *final (pool) == *old(pool),
        i < m.spec_rows() && j < m.spec_cols() && i * m.spec_cols() + j <= usize::MAX ==> {
            &&& !old(pool).is_live(v.id()) ==> r == Err::<(), Error>(Error::Fault) && *final (pool)
                == *old(pool)
            &&& old(pool).is_live(v.id()) && i * m.spec_cols() + j >= old(pool).data(
                v.id(),
            ).len() ==> r == Err::<(), Error>(Error::Invalid) && *final (pool) == *old(pool)
            &&& old(pool).is_live(v.id()) && i * m.spec_cols() + j < old(pool).data(v.id()).len()
                ==> {
                &&& r is Ok
                &&& final (pool).is_live(v.id())
                &&& final (pool).state(v.id()) == old(pool).state(v.id())
                &&& final (pool).data(v.id()) == old(pool).data(v.id()).update(
                    i * m.spec_cols() + j,
                    value,
                )
            }
        },
        i < m.spec_rows() && j < m.spec_cols() && v.id() == m.id() && m.consistent(*old(pool)) ==> {
            &&& r is Ok
            &&& final (pool).data(m.id()) == old(pool).data(m.id()).update(
                i * m.spec_cols() + j,
                value,
            )
            &&& final (pool).state(m.id()) == old(pool).state(m.id())
            &&& m.consistent(*final (pool))
        },
{
    if i >= m.rows || j >= m.cols {
        return Err(Error::Invalid);
    }
    proof {
        if v.id() == m.id() && m.consistent(*old(pool)) {
            lemma_data_len_bound(*old(pool), m.id());
            assert(i * m.spec_cols() + j < m.spec_rows() * m.spec_cols()) by (nonlinear_arith)
                requires
                    i < m.spec_rows(),
                    j < m.spec_cols(),
            ;
        }
    }
    let row_base: usize = match i.checked_mul(m.cols) {
        Some(b) => b,
        None => {
            return Err(Error::Invalid);
        },
    };
    let idx: usize = match row_base.checked_add(j) {
        Some(k) => k,
        None => {
            return Err(Error::Invalid);
        },
    };
    pool.set(v, idx, value)
}

/// Copy the elements of the matrix `x` into the matrix `y`.
///
/// The shape check comes first: on unequal row or column counts the
/// operation fails with [`Error::BadLength`] and the native routine is
/// never invoked.  Then the borrowing discipline takes a shared view of
/// `x` and the exclusive view of `y` for the duration of the call, so
/// `x` and `y` must be distinct handles with no exclusive view live on
/// `x` and no view at all live on `y`.
pub fn copy<T: Copy>(pool: &mut HandlePool<T>, x: &Matrix, y: &Matrix) -> (r: Result<(), Error>)
    requires
        old(pool).wf(),
    ensures
        final (pool).wf(),
        final (pool).num_slots() == old(pool).num_slots(),
        final (pool).spec_capacity() == old(pool).spec_capacity(),
        final (pool).release_count() == old(pool).release_count(),
        final (pool).live_handle_count() == old(pool).live_handle_count(),
        x.spec_rows() != y.spec_rows() || x.spec_cols() != y.spec_cols() ==> r == Err::<
            (),
            Error,
        >(Error::BadLength) && old(pool).same_pool(*final (pool)),
        x.spec_rows() == y.spec_rows() && x.spec_cols() == y.spec_cols() ==> (
        match spec_copy_blocked(*old(pool), x.id(), y.id()) {
            Some(e) => r == Err::<(), Error>(e) && old(pool).same_pool(*final (pool)),
            None => {
                &&& final (pool).routine_count() == spec_tick(old(pool).routine_count())
                &&& old(pool).unchanged_except(*final (pool), y.id())
                &&& final (pool).is_live(y.id())
                &&& final (pool).state(y.id()) == old(pool).state(y.id())
                &&& (if old(pool).data(x.id()).len() == old(pool).data(y.id()).len() {
                    &&& r is Ok
                    &&& final (pool).data(y.id()) == old(pool).data(x.id())
                } else {
                    &&& r == Err::<(), Error>(Error::BadLength)
                    &&& final (pool).data(y.id()) == old(pool).data(y.id())
                })
            },
        }),
{
    let (xr, xc) = x.shape();
    let (yr, yc) = y.shape();
    if xr != yr || xc != yc {
        return Err(Error::BadLength);
    }
    pool.guarded_copy(x.handle(), y.handle())
}

} // verus!
