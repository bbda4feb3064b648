//! Ownership of native handles.
//!
//! Every resource of the wrapped library — vector, matrix, workspace — is
//! reached through an opaque handle that the native allocator hands out
//! and that must be given back to the matching native release routine
//! exactly once.  The native library also assumes, without enforcing it,
//! that a routine writing through a handle is the only user of that handle
//! for the duration of the call.
//!
//! [`HandlePool`] is the table of live handles.  It hands out [`Owned`]
//! wrappers on allocation, grants transient non-owning views — any number
//! of [`SharedView`]s for reading, or a single [`ExclusiveView`] for
//! writing — under a guard counter per handle, and models the native
//! allocation, release and data-movement routines while counting their
//! invocations, so that a caller can observe that shape checks happen
//! before any routine is reached and that each handle is released exactly
//! once, after its last view has ended.

use crate::error::Error;
use crate::error::from_native_code;
use crate::error::GSL_EBADLEN;
use crate::error::GSL_EFAULT;
use crate::error::GSL_SUCCESS;
use vstd::prelude::*;

verus! {

/// The guard state of one live handle: no view, some number of shared
/// (read-only) views, or the single exclusive (writable) view.
///
/// The shape of this type is itself the single-writer-or-multiple-readers
/// rule: a handle with shared views has no exclusive view and vice versa.
#[derive(Clone, Copy, Debug, PartialEq, Eq, Structural)]
pub enum BorrowState {
    /// No live view.
    Idle,
    /// This many live shared views, always at least one.
    Shared(usize),
    /// The single live exclusive view.
    Exclusive,
}

/// How many views are live under guard state `s`.
pub open spec fn live_views(s: BorrowState) -> int {
    match s {
        BorrowState::Idle => 0,
        BorrowState::Shared(n) => n as int,
        BorrowState::Exclusive => 1,
    }
}

/// A guard state is well formed when a `Shared` count is at least one.
pub open spec fn state_wf(s: BorrowState) -> bool {
    s matches BorrowState::Shared(n) ==> n >= 1
}

/// The guard state after granting one more shared view, or `None` when no
/// shared view may be granted: while an exclusive view is live, or when
/// the guard counter is exhausted.
pub open spec fn spec_acquire_shared(s: BorrowState) -> Option<BorrowState> {
    match s {
        BorrowState::Idle => Some(BorrowState::Shared(1)),
        BorrowState::Shared(n) => if n < usize::MAX {
            Some(BorrowState::Shared((n + 1) as usize))
        } else {
            None
        },
        BorrowState::Exclusive => None,
    }
}

/// The guard state after granting the exclusive view, or `None` when any
/// view at all is already live.
pub open spec fn spec_acquire_exclusive(s: BorrowState) -> Option<BorrowState> {
    match s {
        BorrowState::Idle => Some(BorrowState::Exclusive),
        _ => None,
    }
}

/// The guard state after one shared view ends, or `None` when no shared
/// view is live.
pub open spec fn spec_end_shared(s: BorrowState) -> Option<BorrowState> {
    match s {
        BorrowState::Shared(n) => if n == 1 {
            Some(BorrowState::Idle)
        } else {
            Some(BorrowState::Shared((n - 1) as usize))
        },
        _ => None,
    }
}

/// The guard state after the exclusive view ends, or `None` when no
/// exclusive view is live.
pub open spec fn spec_end_exclusive(s: BorrowState) -> Option<BorrowState> {
    match s {
        BorrowState::Exclusive => Some(BorrowState::Idle),
        _ => None,
    }
}

/// An owned handle: the one wrapper responsible for releasing the
/// underlying native resource.  It is not `Clone`, so ownership moves;
/// releasing consumes it.
#[derive(Debug)]
pub struct Owned {
    h: usize,
}

impl Owned {
    /// The handle this wrapper owns.
    pub closed spec fn id(self) -> int {
        self.h as int
    }
}

/// A non-owning read-only view into a handle owned elsewhere.  Created
/// transiently for the duration of one operation; ending it gives the
/// grant back.  Its destruction never releases the resource.
#[derive(Debug)]
pub struct SharedView {
    h: usize,
}

impl SharedView {
    /// The handle this view reads.
    pub closed spec fn id(self) -> int {
        self.h as int
    }
}

/// The sole non-owning writable view into a handle owned elsewhere.
/// Created transiently for the duration of one operation; ending it gives
/// the grant back.  Its destruction never releases the resource.
#[derive(Debug)]
pub struct ExclusiveView {
    h: usize,
}

impl ExclusiveView {
    /// The handle this view writes.
    pub closed spec fn id(self) -> int {
        self.h as int
    }
}

struct Slot<T> {
    data: Vec<T>,
    state: BorrowState,
}

/// How many slots of `s` still hold a live handle.
spec fn count_live<T>(s: Seq<Option<Slot<T>>>) -> nat
    decreases s.len(),
{
    if s.len() == 0 {
        0
    } else {
        count_live(s.drop_last()) + if s.last() is Some {
            1nat
        } else {
            0nat
        }
    }
}

proof fn lemma_count_live_push<T>(s: Seq<Option<Slot<T>>>, x: Option<Slot<T>>)
    ensures
        count_live(s.push(x)) == count_live(s) + if x is Some {
            1nat
        } else {
            0nat
        },
{
    assert(s.push(x).drop_last() =~= s);
}

proof fn lemma_count_live_update<T>(s: Seq<Option<Slot<T>>>, i: int, x: Option<Slot<T>>)
    requires
        0 <= i < s.len(),
    ensures
        count_live(s.update(i, x)) == count_live(s) - (if s[i] is Some {
            1int
        } else {
            0int
        }) + (if x is Some {
            1int
        } else {
            0int
        }),
    decreases s.len(),
{
    if i == s.len() - 1 {
        assert(s.update(i, x).drop_last() =~= s.drop_last());
    } else {
        assert(s.update(i, x).drop_last() =~= s.drop_last().update(i, x));
        lemma_count_live_update(s.drop_last(), i, x);
    }
}

/// The table of live native handles, together with the counters of the
/// modelled native allocator: how often the release routine ran and how
/// often a data-movement routine ran.
///
/// The pool stands in for the native library's heap: a handle is an index
/// into the table, a released handle leaves a dead slot behind, and a dead
/// slot is never resurrected, so each allocation is released at most once
/// — and the well-formedness invariant says the release count equals the
/// number of dead slots, so each dead slot accounts for exactly one
/// release.
pub struct HandlePool<T> {
    slots: Vec<Option<Slot<T>>>,
    capacity: usize,
    released: usize,
    routines: u64,
}

/// A saturating step of the routine-invocation counter.
pub open spec fn spec_tick(n: u64) -> u64 {
    if n == u64::MAX {
        n
    } else {
        (n + 1) as u64
    }
}

/// Why a guarded copy stops before running its routine: a dead handle, a
/// view the borrowing discipline refuses, or source and destination
/// being the same handle.
pub open spec fn spec_copy_blocked<T>(pool: HandlePool<T>, src: int, dst: int) -> Option<Error> {
    if !pool.is_live(src) {
        Some(Error::Fault)
    } else if pool.state(src) is Exclusive {
        Some(Error::Invalid)
    } else if spec_acquire_shared(pool.state(src)) is None {
        Some(Error::Failed)
    } else if !pool.is_live(dst) {
        Some(Error::Fault)
    } else if dst == src || !(pool.state(dst) is Idle) {
        Some(Error::Invalid)
    } else {
        None
    }
}

/// Why a guarded swap stops before running its routine: a dead handle, a
/// view already live, or the two arguments being the same handle.
pub open spec fn spec_swap_blocked<T>(pool: HandlePool<T>, a: int, b: int) -> Option<Error> {
    if !pool.is_live(a) {
        Some(Error::Fault)
    } else if !(pool.state(a) is Idle) {
        Some(Error::Invalid)
    } else if !pool.is_live(b) {
        Some(Error::Fault)
    } else if b == a || !(pool.state(b) is Idle) {
        Some(Error::Invalid)
    } else {
        None
    }
}

impl<T> HandlePool<T> {
    /// How many handles this pool has ever allocated.
    pub closed spec fn num_slots(self) -> int {
        self.slots@.len() as int
    }

    /// Whether handle `h` is live: allocated and not yet released.
    pub closed spec fn is_live(self, h: int) -> bool {
        0 <= h < self.slots@.len() && self.slots@[h] is Some
    }

    /// The elements stored under handle `h`.
    pub closed spec fn data(self, h: int) -> Seq<T>
        recommends
            self.is_live(h),
    {
        self.slots@[h]->Some_0.data@
    }

    /// The guard state of handle `h`.
    pub closed spec fn state(self, h: int) -> BorrowState
        recommends
            self.is_live(h),
    {
        self.slots@[h]->Some_0.state
    }

    /// The most handles this pool will keep live at once; allocation
    /// beyond it fails the way an exhausted native allocator does.
    pub closed spec fn spec_capacity(self) -> int {
        self.capacity as int
    }

    /// How often the native release routine has run.
    pub closed spec fn release_count(self) -> int {
        self.released as int
    }

    /// How often a native data-movement routine has run.
    pub closed spec fn routine_count(self) -> u64 {
        self.routines
    }

    /// How many handles are currently live.
    pub closed spec fn live_handle_count(self) -> int {
        count_live(self.slots@) as int
    }

    /// Well-formedness: the release count equals the number of dead
    /// slots, and every live guard state is well formed.
    pub closed spec fn wf(self) -> bool {
        &&& self.released + count_live(self.slots@) == self.slots@.len()
        &&& forall|h: int|
            0 <= h < self.slots@.len() && self.slots@[h] is Some ==> state_wf(
                #[trigger] self.slots@[h]->Some_0.state,
            )
    }

    /// Whether handle `h` keeps its liveness from `self` to `other` and,
    /// if live, its guard state and data too.
    pub open spec fn slot_unchanged(self, other: Self, h: int) -> bool {
        &&& other.is_live(h) == self.is_live(h)
        &&& self.is_live(h) ==> other.state(h) == self.state(h) && other.data(h) == self.data(h)
    }

    /// Whether every handle except `except` keeps its liveness, guard
    /// state and data from `self` to `other`.
    pub open spec fn unchanged_except(self, other: Self, except: int) -> bool {
        forall|h: int| h != except ==> #[trigger] self.slot_unchanged(other, h)
    }

    /// Whether every handle keeps its liveness, guard state and data
    /// from `self` to `other`.
    pub open spec fn unchanged_all(self, other: Self) -> bool {
        forall|h: int| #[trigger] self.slot_unchanged(other, h)
    }

    /// Whether every handle except `e1` and `e2` keeps its liveness,
    /// guard state and data from `self` to `other`.
    pub open spec fn unchanged_except2(self, other: Self, e1: int, e2: int) -> bool {
        forall|h: int| h != e1 && h != e2 ==> #[trigger] self.slot_unchanged(other, h)
    }

    /// Whether the allocator counters and capacity are the same in
    /// `self` and `other`.
    pub open spec fn counters_unchanged(self, other: Self) -> bool {
        &&& other.spec_capacity() == self.spec_capacity()
        &&& other.release_count() == self.release_count()
        &&& other.routine_count() == self.routine_count()
    }

    /// Whether `other` is observationally the same pool as `self`: the
    /// same handles with the same liveness, guard states, data and
    /// counters.
    pub open spec fn same_pool(self, other: Self) -> bool {
        &&& other.num_slots() == self.num_slots()
        &&& other.live_handle_count() == self.live_handle_count()
        &&& self.counters_unchanged(other)
        &&& self.unchanged_all(other)
    }

    /// What reading index `i` under handle `h` yields: the element when
    /// the handle is live and the index in bounds, [`Error::Fault`] on a
    /// dead handle, [`Error::Invalid`] on an index out of bounds.
    pub open spec fn spec_get(self, h: int, i: int) -> Result<T, Error> {
        if !self.is_live(h) {
            Err(Error::Fault)
        } else if i >= self.data(h).len() {
            Err(Error::Invalid)
        } else {
            Ok(self.data(h)[i])
        }
    }

    /// Create a pool that will keep at most `capacity` handles live at
    /// once.
    pub fn new(capacity: usize) -> (r: Self)
        ensures
            r.wf(),
            r.num_slots() == 0,
            r.spec_capacity() == capacity,
            r.release_count() == 0,
            r.routine_count() == 0,
            r.live_handle_count() == 0,
    {
        HandlePool { slots: Vec::new(), capacity, released: 0, routines: 0 }
    }
}

impl<T: Copy> HandlePool<T> {
    /// Allocate a fresh handle holding `len` elements, all equal to
    /// `fill`, and wrap it as [`Owned`].
    ///
    /// Fails with [`Error::NoMemory`] — the decoding of the null
    /// handle an exhausted native allocator returns — if and only if the
    /// pool already keeps its full capacity of handles live.
    pub fn allocate(&mut self, len: usize, fill: T) -> (r: Result<Owned, Error>)
        requires
            old(self).wf(),
        ensures
            final (self).wf(),
            old(self).counters_unchanged(*final (self)),
            old(self).unchanged_except(*final (self), old(self).num_slots()),
            (match r {
                Ok(o) => {
                    &&& old(self).live_handle_count() < old(self).spec_capacity()
                    &&& o.id() == old(self).num_slots()
                    &&& final (self).num_slots() == old(self).num_slots() + 1
                    &&& final (self).live_handle_count() == old(self).live_handle_count() + 1
                    &&& final (self).is_live(o.id())
                    &&& final (self).state(o.id()) == BorrowState::Idle
                    &&& final (self).data(o.id()).len() == len
                    &&& forall|i: int| 0 <= i < len ==> final (self).data(o.id())[i] == fill
                },
                Err(e) => {
                    &&& e == Error::NoMemory
                    &&& old(self).live_handle_count() >= old(self).spec_capacity()
                    &&& *final (self) == *old(self)
                },
            }),
    {
        let live = self.slots.len() - self.released;
        if live >= self.capacity {
            return Err(Error::NoMemory);
        }
        let mut data: Vec<T> = Vec::new();
        let mut i: usize = 0;
        while i < len
            invariant
                i <= len,
                data@.len() == i,
                forall|j: int| 0 <= j < i ==> data@[j] == fill,
            decreases len - i,
        {
            data.push(fill);
            i = i + 1;
        }
        let h = self.slots.len();
        let ghost old_slots = self.slots@;
        self.slots.push(Some(Slot { data, state: BorrowState::Idle }));
        proof {
            lemma_count_live_push(old_slots, self.slots@.last());
        }
        Ok(Owned { h })
    }

    /// Release the handle that `o` owns, invoking the native release
    /// routine exactly once, and only if no view into it is still live.
    ///
    /// On failure the wrapper comes back untouched beside the error:
    /// [`Error::Invalid`] while a view is live, [`Error::Fault`] if the
    /// handle is not live in this pool at all.
    pub fn free(&mut self, o: Owned) -> (r: Result<(), (Owned, Error)>)
        requires
            old(self).wf(),
        ensures
            final (self).wf(),
            final (self).num_slots() == old(self).num_slots(),
            final (self).spec_capacity() == old(self).spec_capacity(),
            final (self).routine_count() == old(self).routine_count(),
            old(self).unchanged_except(*final (self), o.id()),
            (match r {
                Ok(()) => {
                    &&& old(self).is_live(o.id())
                    &&& old(self).state(o.id()) == BorrowState::Idle
                    &&& !final (self).is_live(o.id())
                    &&& final (self).release_count() == old(self).release_count() + 1
                    &&& final (self).live_handle_count() == old(self).live_handle_count() - 1
                },
                Err((o2, e)) => {
                    &&& o2 == o
                    &&& *final (self) == *old(self)
                    &&& !old(self).is_live(o.id()) ==> e == Error::Fault
                    &&& old(self).is_live(o.id()) ==> e == Error::Invalid && live_views(
                        old(self).state(o.id()),
                    ) > 0
                },
            }),
    {
        if o.h >= self.slots.len() {
            return Err((o, Error::Fault));
        }
        let st: BorrowState = match &self.slots[o.h] {
            None => {
                return Err((o, Error::Fault));
            },
            Some(slot) => slot.state,
        };
        match st {
            BorrowState::Idle => {
                let ghost old_slots = self.slots@;
                self.slots[o.h] = None;
                proof {
                    lemma_count_live_update(old_slots, o.h as int, self.slots@[o.h as int]);
                }
                self.released = self.released + 1;
                Ok(())
            },
            _ => Err((o, Error::Invalid)),
        }
    }

    /// Grant one more read-only view of the handle `o` owns.
    ///
    /// Granted whenever no exclusive view is live; the grant is recorded
    /// in the handle's guard state and must be given back through
    /// [`HandlePool::end_shared`].  Fails with [`Error::Invalid`] while
    /// the exclusive view is live, with [`Error::Failed`] when the guard
    /// counter is exhausted, and with [`Error::Fault`] on a handle that
    /// is not live in this pool.
    pub fn borrow_shared(&mut self, o: &Owned) -> (r: Result<SharedView, Error>)
        requires
            old(self).wf(),
        ensures
            final (self).wf(),
            final (self).num_slots() == old(self).num_slots(),
            old(self).counters_unchanged(*final (self)),
            old(self).unchanged_except(*final (self), o.id()),
            final (self).live_handle_count() == old(self).live_handle_count(),
            !old(self).is_live(o.id()) ==> r == Err::<SharedView, Error>(Error::Fault)
                && *final (self) == *old(self),
            old(self).is_live(o.id()) ==> {
                &&& final (self).is_live(o.id())
                &&& final (self).data(o.id()) == old(self).data(o.id())
                &&& (match spec_acquire_shared(old(self).state(o.id())) {
                    Some(s2) => {
                        &&& r matches Ok(v) && v.id() == o.id()
                        &&& final (self).state(o.id()) == s2
                    },
                    None => {
                        &&& *final (self) == *old(self)
                        &&& old(self).state(o.id()) is Exclusive ==> r == Err::<
                            SharedView,
                            Error,
                        >(Error::Invalid)
                        &&& old(self).state(o.id()) is Shared ==> r == Err::<SharedView, Error>(
                            Error::Failed,
                        )
                    },
                })
            },
    {
        if o.h >= self.slots.len() {
            return Err(Error::Fault);
        }
        let st: BorrowState = match &self.slots[o.h] {
            None => {
                return Err(Error::Fault);
            },
            Some(slot) => slot.state,
        };
        let next: BorrowState = match st {
            BorrowState::Idle => BorrowState::Shared(1),
            BorrowState::Shared(n) => {
                if n < usize::MAX {
                    BorrowState::Shared(n + 1)
                } else {
                    return Err(Error::Failed);
                }
            },
            BorrowState::Exclusive => {
                return Err(Error::Invalid);
            },
        };
        self.set_state(o.h, next);
        Ok(SharedView { h: o.h })
    }

    /// Grant the sole writable view of the handle `o` owns.
    ///
    /// Granted only while no other view — shared or exclusive — is live;
    /// the grant is recorded in the handle's guard state and must be
    /// given back through [`HandlePool::end_exclusive`].  Fails with
    /// [`Error::Invalid`] while any view is live and with
    /// [`Error::Fault`] on a handle that is not live in this pool.
    pub fn borrow_exclusive(&mut self, o: &Owned) -> (r: Result<ExclusiveView, Error>)
        requires
            old(self).wf(),
        ensures
            final (self).wf(),
            final (self).num_slots() == old(self).num_slots(),
            old(self).counters_unchanged(*final (self)),
            old(self).unchanged_except(*final (self), o.id()),
            final (self).live_handle_count() == old(self).live_handle_count(),
            !old(self).is_live(o.id()) ==> r == Err::<ExclusiveView, Error>(Error::Fault)
                && *final (self) == *old(self),
            old(self).is_live(o.id()) ==> {
                &&& final (self).is_live(o.id())
                &&& final (self).data(o.id()) == old(self).data(o.id())
                &&& (match spec_acquire_exclusive(old(self).state(o.id())) {
                    Some(s2) => {
                        &&& r matches Ok(v) && v.id() == o.id()
                        &&& final (self).state(o.id()) == s2
                    },
                    None => {
                        &&& *final (self) == *old(self)
                        &&& r == Err::<ExclusiveView, Error>(Error::Invalid)
                        &&& live_views(old(self).state(o.id())) > 0
                    },
                })
            },
    {
        if o.h >= self.slots.len() {
            return Err(Error::Fault);
        }
        let st: BorrowState = match &self.slots[o.h] {
            None => {
                return Err(Error::Fault);
            },
            Some(slot) => slot.state,
        };
        match st {
            BorrowState::Idle => {
                self.set_state(o.h, BorrowState::Exclusive);
                Ok(ExclusiveView { h: o.h })
            },
            _ => Err(Error::Invalid),
        }
    }

    /// Give back the grant of one shared view, consuming it.
    ///
    /// Fails with [`Error::Fault`] on a view whose handle is not live in
    /// this pool, and with [`Error::Sanity`] if the handle's guard state
    /// records no shared view — which cannot happen through this
    /// interface.
    pub fn end_shared(&mut self, v: SharedView) -> (r: Result<(), Error>)
        requires
            old(self).wf(),
        ensures
            final (self).wf(),
            final (self).num_slots() == old(self).num_slots(),
            old(self).counters_unchanged(*final (self)),
            old(self).unchanged_except(*final (self), v.id()),
            final (self).live_handle_count() == old(self).live_handle_count(),
            !old(self).is_live(v.id()) ==> r == Err::<(), Error>(Error::Fault) && *final (self)
                == *old(self),
            old(self).is_live(v.id()) ==> {
                &&& final (self).is_live(v.id())
                &&& final (self).data(v.id()) == old(self).data(v.id())
                &&& (match spec_end_shared(old(self).state(v.id())) {
                    Some(s2) => r is Ok && final (self).state(v.id()) == s2,
                    None => r == Err::<(), Error>(Error::Sanity) && *final (self) == *old(self),
                })
            },
    {
        if v.h >= self.slots.len() {
            return Err(Error::Fault);
        }
        let st: BorrowState = match &self.slots[v.h] {
            None => {
                return Err(Error::Fault);
            },
            Some(slot) => slot.state,
        };
        match st {
            BorrowState::Shared(n) => {
                if n == 1 {
                    self.set_state(v.h, BorrowState::Idle);
                } else {
                    self.set_state(v.h, BorrowState::Shared(n - 1));
                }
                Ok(())
            },
            _ => Err(Error::Sanity),
        }
    }

    /// Give back the grant of the exclusive view, consuming it.
    ///
    /// Fails with [`Error::Fault`] on a view whose handle is not live in
    /// this pool, and with [`Error::Sanity`] if the handle's guard state
    /// records no exclusive view — which cannot happen through this
    /// interface.
    pub fn end_exclusive(&mut self, v: ExclusiveView) -> (r: Result<(), Error>)
        requires
            old(self).wf(),
        ensures
            final (self).wf(),
            final (self).num_slots() == old(self).num_slots(),
            old(self).counters_unchanged(*final (self)),
            old(self).unchanged_except(*final (self), v.id()),
            final (self).live_handle_count() == old(self).live_handle_count(),
            !old(self).is_live(v.id()) ==> r == Err::<(), Error>(Error::Fault) && *final (self)
                == *old(self),
            old(self).is_live(v.id()) ==> {
                &&& final (self).is_live(v.id())
                &&& final (self).data(v.id()) == old(self).data(v.id())
                &&& (match spec_end_exclusive(old(self).state(v.id())) {
                    Some(s2) => r is Ok && final (self).state(v.id()) == s2,
                    None => r == Err::<(), Error>(Error::Sanity) && *final (self) == *old(self),
                })
            },
    {
        if v.h >= self.slots.len() {
            return Err(Error::Fault);
        }
        let st: BorrowState = match &self.slots[v.h] {
            None => {
                return Err(Error::Fault);
            },
            Some(slot) => slot.state,
        };
        match st {
            BorrowState::Exclusive => {
                self.set_state(v.h, BorrowState::Idle);
                Ok(())
            },
            _ => Err(Error::Sanity),
        }
    }

    /// Read one element through a shared view: bounds-checked access
    /// consistent with the read-only borrowing mode.
    pub fn get(&self, v: &SharedView, i: usize) -> (r: Result<T, Error>)
        ensures
            r == self.spec_get(v.id(), i as int),
    {
        if v.h >= self.slots.len() {
            return Err(Error::Fault);
        }
        match &self.slots[v.h] {
            None => Err(Error::Fault),
            Some(slot) => {
                if i < slot.data.len() {
                    Ok(slot.data[i])
                } else {
                    Err(Error::Invalid)
                }
            },
        }
    }

    /// Write one element through the exclusive view: bounds-checked
    /// access consistent with the sole-writer borrowing mode.
    ///
    /// Fails with [`Error::Fault`] on a view whose handle is not live and
    /// with [`Error::Invalid`] on an index out of bounds; in both cases
    /// the pool is untouched.
    pub fn set(&mut self, v: &ExclusiveView, i: usize, value: T) -> (r: Result<(), Error>)
        requires
            old(self).wf(),
        ensures
            final (self).wf(),
            final (self).num_slots() == old(self).num_slots(),
            final (self).live_handle_count() == old(self).live_handle_count(),
            old(self).counters_unchanged(*final (self)),
            old(self).unchanged_except(*final (self), v.id()),
            !old(self).is_live(v.id()) ==> r == Err::<(), Error>(Error::Fault) && *final (self)
                == *old(self),
            old(self).is_live(v.id()) && i >= old(self).data(v.id()).len() ==> r == Err::<
                (),
                Error,
            >(Error::Invalid) && *final (self) == *old(self),
            old(self).is_live(v.id()) && i < old(self).data(v.id()).len() ==> {
                &&& r is Ok
                &&& final (self).is_live(v.id())
                &&& final (self).state(v.id()) == old(self).state(v.id())
                &&& final (self).data(v.id()) == old(self).data(v.id()).update(i as int, value)
            },
    {
        if v.h >= self.slots.len() {
            return Err(Error::Fault);
        }
        let n: usize = match &self.slots[v.h] {
            None => {
                return Err(Error::Fault);
            },
            Some(s) => s.data.len(),
        };
        if i >= n {
            return Err(Error::Invalid);
        }
        let ghost old_slots = self.slots@;
        let slot = &mut self.slots[v.h];
        match slot {
            Some(s) => {
                s.data[i] = value;
            },
            None => {
            },
        }
        proof {
            lemma_count_live_update(old_slots, v.h as int, self.slots@[v.h as int]);
        }
        Ok(())
    }

    /// How often the native release routine has run, as a runtime value.
    pub fn release_invocations(&self) -> (r: usize)
        ensures
            r == self.release_count(),
    {
        self.released
    }

    /// How often a native data-movement routine has run, as a runtime
    /// value.
    pub fn routine_invocations(&self) -> (r: u64)
        ensures
            r == self.routine_count(),
    {
        self.routines
    }

    /// How many handles are currently live, as a runtime value.
    pub fn live_handles(&self) -> (r: usize)
        requires
            self.wf(),
        ensures
            r == self.live_handle_count(),
    {
        self.slots.len() - self.released
    }

    /// Advance the routine-invocation counter by one (saturating).
    fn tick(&mut self)
        requires
            old(self).wf(),
        ensures
            final (self).wf(),
            final (self).num_slots() == old(self).num_slots(),
            final (self).live_handle_count() == old(self).live_handle_count(),
            final (self).spec_capacity() == old(self).spec_capacity(),
            final (self).release_count() == old(self).release_count(),
            final (self).routine_count() == spec_tick(old(self).routine_count()),
            old(self).unchanged_all(*final (self)),
            forall|h: int| #[trigger] final (self).is_live(h) == old(self).is_live(h),
            forall|h: int| #[trigger] final (self).state(h) == old(self).state(h),
            forall|h: int| #[trigger] final (self).data(h) == old(self).data(h),
    {
        if self.routines < u64::MAX {
            self.routines = self.routines + 1;
        }
    }

    /// Copy all elements stored under the live handle `h`.
    fn read_all(&self, h: usize) -> (r: Vec<T>)
        requires
            self.is_live(h as int),
        ensures
            r@ == self.data(h as int),
    {
        let n: usize = match &self.slots[h] {
            None => 0,
            Some(s) => s.data.len(),
        };
        let mut r: Vec<T> = Vec::new();
        let mut i: usize = 0;
        while i < n
            invariant
                i <= n,
                r@.len() == i,
                self.is_live(h as int),
                h < self.slots@.len(),
                n == self.data(h as int).len(),
                forall|j: int| 0 <= j < i ==> r@[j] == self.data(h as int)[j],
            decreases n - i,
        {
            match &self.slots[h] {
                Some(s) => {
                    r.push(s.data[i]);
                },
                None => {
                },
            }
            i = i + 1;
        }
        proof {
            assert(r@ =~= self.data(h as int));
        }
        r
    }

    /// The native vector-copy routine, modelled: copy the elements under
    /// `src` onto `dst` and report a status code.  Every call counts as
    /// one routine invocation, whatever its outcome.
    ///
    /// Like the native routine, it checks its own arguments: a dead
    /// handle yields [`GSL_EFAULT`], unequal lengths yield
    /// [`GSL_EBADLEN`], and in both cases no data moves.
    pub fn copy_routine(&mut self, src: &SharedView, dst: &ExclusiveView) -> (status: i32)
        requires
            old(self).wf(),
        ensures
            final (self).wf(),
            final (self).num_slots() == old(self).num_slots(),
            final (self).live_handle_count() == old(self).live_handle_count(),
            final (self).spec_capacity() == old(self).spec_capacity(),
            final (self).release_count() == old(self).release_count(),
            final (self).routine_count() == spec_tick(old(self).routine_count()),
            old(self).unchanged_except(*final (self), dst.id()),
            !old(self).is_live(src.id()) || !old(self).is_live(dst.id()) ==> status == GSL_EFAULT
                && old(self).unchanged_all(*final (self)),
            old(self).is_live(src.id()) && old(self).is_live(dst.id()) && old(self).data(
                src.id(),
            ).len() != old(self).data(dst.id()).len() ==> status == GSL_EBADLEN && old(
                self,
            ).unchanged_all(*final (self)),
            old(self).is_live(src.id()) && old(self).is_live(dst.id()) && old(self).data(
                src.id(),
            ).len() == old(self).data(dst.id()).len() ==> {
                &&& status == GSL_SUCCESS
                &&& final (self).is_live(dst.id())
                &&& final (self).state(dst.id()) == old(self).state(dst.id())
                &&& final (self).data(dst.id()) == old(self).data(src.id())
            },
    {
        if src.h >= self.slots.len() || dst.h >= self.slots.len() {
            self.tick();
            return GSL_EFAULT;
        }
        let src_len: usize = match &self.slots[src.h] {
            None => {
                self.tick();
                return GSL_EFAULT;
            },
            Some(s) => s.data.len(),
        };
        let dst_state: BorrowState = match &self.slots[dst.h] {
            None => {
                self.tick();
                return GSL_EFAULT;
            },
            Some(s) => s.state,
        };
        let dst_len: usize = match &self.slots[dst.h] {
            None => 0,
            Some(s) => s.data.len(),
        };
        if src_len != dst_len {
            self.tick();
            return GSL_EBADLEN;
        }
        let tmp = self.read_all(src.h);
        let ghost old_slots = self.slots@;
        self.slots[dst.h] = Some(Slot { data: tmp, state: dst_state });
        proof {
            lemma_count_live_update(old_slots, dst.h as int, self.slots@[dst.h as int]);
        }
        self.tick();
        GSL_SUCCESS
    }

    /// The native vector-swap routine, modelled: exchange the elements
    /// under `a` and `b` and report a status code.  Every call counts as
    /// one routine invocation, whatever its outcome.
    ///
    /// Like the native routine, it checks its own arguments: a dead
    /// handle yields [`GSL_EFAULT`], unequal lengths yield
    /// [`GSL_EBADLEN`], and in both cases no data moves.
    pub fn swap_routine(&mut self, a: &ExclusiveView, b: &ExclusiveView) -> (status: i32)
        requires
            old(self).wf(),
        ensures
            final (self).wf(),
            final (self).num_slots() == old(self).num_slots(),
            final (self).live_handle_count() == old(self).live_handle_count(),
            final (self).spec_capacity() == old(self).spec_capacity(),
            final (self).release_count() == old(self).release_count(),
            final (self).routine_count() == spec_tick(old(self).routine_count()),
            old(self).unchanged_except2(*final (self), a.id(), b.id()),
            !old(self).is_live(a.id()) || !old(self).is_live(b.id()) ==> status == GSL_EFAULT
                && old(self).unchanged_all(*final (self)),
            old(self).is_live(a.id()) && old(self).is_live(b.id()) && old(self).data(
                a.id(),
            ).len() != old(self).data(b.id()).len() ==> status == GSL_EBADLEN && old(
                self,
            ).unchanged_all(*final (self)),
            old(self).is_live(a.id()) && old(self).is_live(b.id()) && old(self).data(a.id()).len()
                == old(self).data(b.id()).len() ==> {
                &&& status == GSL_SUCCESS
                &&& final (self).is_live(a.id()) && final (self).is_live(b.id())
                &&& final (self).state(a.id()) == old(self).state(a.id())
                &&& final (self).state(b.id()) == old(self).state(b.id())
                &&& a.id() != b.id() ==> final (self).data(a.id()) == old(self).data(b.id())
                &&& final (self).data(b.id()) == old(self).data(a.id())
            },
    {
        if a.h >= self.slots.len() || b.h >= self.slots.len() {
            self.tick();
            return GSL_EFAULT;
        }
        let a_state: BorrowState = match &self.slots[a.h] {
            None => {
                self.tick();
                return GSL_EFAULT;
            },
            Some(s) => s.state,
        };
        let b_state: BorrowState = match &self.slots[b.h] {
            None => {
                self.tick();
                return GSL_EFAULT;
            },
            Some(s) => s.state,
        };
        let a_len: usize = match &self.slots[a.h] {
            None => 0,
            Some(s) => s.data.len(),
        };
        let b_len: usize = match &self.slots[b.h] {
            None => 0,
            Some(s) => s.data.len(),
        };
        if a_len != b_len {
            self.tick();
            return GSL_EBADLEN;
        }
        let tmp_a = self.read_all(a.h);
        let tmp_b = self.read_all(b.h);
        let ghost slots0 = self.slots@;
        self.slots[a.h] = Some(Slot { data: tmp_b, state: a_state });
        proof {
            lemma_count_live_update(slots0, a.h as int, self.slots@[a.h as int]);
        }
        let ghost slots1 = self.slots@;
        self.slots[b.h] = Some(Slot { data: tmp_a, state: b_state });
        proof {
            lemma_count_live_update(slots1, b.h as int, self.slots@[b.h as int]);
        }
        self.tick();
        GSL_SUCCESS
    }

    /// Copy the elements under the handle `x` onto the handle `y`, under
    /// the borrowing discipline: a shared view of `x` and the exclusive
    /// view of `y` are taken for the duration of the call, so `x` and
    /// `y` must be distinct handles with no exclusive view live on `x`
    /// and no view at all live on `y`.  The routine's status code comes
    /// back decoded through the error taxonomy.
    pub fn guarded_copy(&mut self, x: &Owned, y: &Owned) -> (r: Result<(), Error>)
        requires
            old(self).wf(),
        ensures
            final (self).wf(),
            final (self).num_slots() == old(self).num_slots(),
            final (self).spec_capacity() == old(self).spec_capacity(),
            final (self).release_count() == old(self).release_count(),
            final (self).live_handle_count() == old(self).live_handle_count(),
            (match spec_copy_blocked(*old(self), x.id(), y.id()) {
                Some(e) => r == Err::<(), Error>(e) && old(self).same_pool(*final (self)),
                None => {
                    &&& final (self).routine_count() == spec_tick(old(self).routine_count())
                    &&& old(self).unchanged_except(*final (self), y.id())
                    &&& final (self).is_live(y.id())
                    &&& final (self).state(y.id()) == old(self).state(y.id())
                    &&& (if old(self).data(x.id()).len() == old(self).data(y.id()).len() {
                        &&& r is Ok
                        &&& final (self).data(y.id()) == old(self).data(x.id())
                    } else {
                        &&& r == Err::<(), Error>(Error::BadLength)
                        &&& final (self).data(y.id()) == old(self).data(y.id())
                    })
                },
            }),
    {
        let sx = match self.borrow_shared(x) {
            Ok(v) => v,
            Err(e) => {
                return Err(e);
            },
        };
        let ghost p1 = *self;
        proof {
            assert(p1.is_live(x.id()));
            assert(p1.state(x.id()) is Shared);
        }
        let ey = match self.borrow_exclusive(y) {
            Ok(v) => v,
            Err(e) => {
                proof {
                    if y.id() != x.id() {
                        assert(old(self).slot_unchanged(p1, y.id()));
                    }
                    lemma_wf_state(*old(self), x.id());
                    lemma_grant_end_inverse(old(self).state(x.id()));
                }
                let _ = self.end_shared(sx);
                proof {
                    assert forall|h: int| true implies old(self).slot_unchanged(*self, h) by {
                        if h != x.id() {
                            assert(old(self).slot_unchanged(p1, h));
                            assert(p1.slot_unchanged(*self, h));
                        }
                    }
                }
                return Err(e);
            },
        };
        let ghost p2 = *self;
        proof {
            assert(p1.is_live(y.id()));
            assert(p1.state(y.id()) is Idle);
            assert(y.id() != x.id());
            assert(old(self).slot_unchanged(p1, y.id()));
            assert(p1.slot_unchanged(p2, x.id()));
            assert(p2.data(x.id()) == old(self).data(x.id()));
            assert(p2.data(y.id()) == old(self).data(y.id()));
            assert(p2.is_live(x.id()) && p2.is_live(y.id()));
        }
        let status = self.copy_routine(&sx, &ey);
        let ghost p3 = *self;
        proof {
            lemma_wf_state(*old(self), x.id());
            lemma_wf_state(*old(self), y.id());
            lemma_grant_end_inverse(old(self).state(x.id()));
            lemma_grant_end_inverse(old(self).state(y.id()));
            assert(p2.slot_unchanged(p3, x.id()));
            if p2.data(x.id()).len() != p2.data(y.id()).len() {
                assert(p2.slot_unchanged(p3, y.id()));
            }
            assert(p3.is_live(y.id()) && p3.state(y.id()) == BorrowState::Exclusive);
        }
        let _ = self.end_exclusive(ey);
        let ghost p4 = *self;
        let _ = self.end_shared(sx);
        proof {
            assert(p3.slot_unchanged(p4, x.id()));
            assert(p4.slot_unchanged(*self, y.id()));
            assert forall|h: int| h != y.id() implies old(self).slot_unchanged(*self, h) by {
                if h != x.id() {
                    assert(old(self).slot_unchanged(p1, h));
                    assert(p1.slot_unchanged(p2, h));
                    assert(p2.slot_unchanged(p3, h));
                    assert(p3.slot_unchanged(p4, h));
                    assert(p4.slot_unchanged(*self, h));
                } else {
                    assert(p1.slot_unchanged(p2, h));
                    assert(p2.slot_unchanged(p3, h));
                    assert(p3.slot_unchanged(p4, h));
                }
            }
        }
        from_native_code(status)
    }

    /// Exchange the elements under the handles `x` and `y`, under the
    /// borrowing discipline: the exclusive view of both is taken for the
    /// duration of the call, so `x` and `y` must be distinct handles
    /// with no view at all live on either.  The routine's status code
    /// comes back decoded through the error taxonomy.
    pub fn guarded_swap(&mut self, x: &Owned, y: &Owned) -> (r: Result<(), Error>)
        requires
            old(self).wf(),
        ensures
            final (self).wf(),
            final (self).num_slots() == old(self).num_slots(),
            final (self).spec_capacity() == old(self).spec_capacity(),
            final (self).release_count() == old(self).release_count(),
            final (self).live_handle_count() == old(self).live_handle_count(),
            (match spec_swap_blocked(*old(self), x.id(), y.id()) {
                Some(e) => r == Err::<(), Error>(e) && old(self).same_pool(*final (self)),
                None => {
                    &&& final (self).routine_count() == spec_tick(old(self).routine_count())
                    &&& old(self).unchanged_except2(*final (self), x.id(), y.id())
                    &&& final (self).is_live(x.id()) && final (self).is_live(y.id())
                    &&& final (self).state(x.id()) == old(self).state(x.id())
                    &&& final (self).state(y.id()) == old(self).state(y.id())
                    &&& (if old(self).data(x.id()).len() == old(self).data(y.id()).len() {
                        &&& r is Ok
                        &&& final (self).data(x.id()) == old(self).data(y.id())
                        &&& final (self).data(y.id()) == old(self).data(x.id())
                    } else {
                        &&& r == Err::<(), Error>(Error::BadLength)
                        &&& final (self).data(x.id()) == old(self).data(x.id())
                        &&& final (self).data(y.id()) == old(self).data(y.id())
                    })
                },
            }),
    {
        let ex = match self.borrow_exclusive(x) {
            Ok(v) => v,
            Err(e) => {
                return Err(e);
            },
        };
        let ghost p1 = *self;
        proof {
            assert(p1.is_live(x.id()));
            assert(p1.state(x.id()) == BorrowState::Exclusive);
            assert(old(self).state(x.id()) is Idle);
        }
        let ey = match self.borrow_exclusive(y) {
            Ok(v) => v,
            Err(e) => {
                proof {
                    if y.id() != x.id() {
                        assert(old(self).slot_unchanged(p1, y.id()));
                    }
                    lemma_wf_state(*old(self), x.id());
                    lemma_grant_end_inverse(old(self).state(x.id()));
                }
                let _ = self.end_exclusive(ex);
                proof {
                    assert forall|h: int| true implies old(self).slot_unchanged(*self, h) by {
                        if h != x.id() {
                            assert(old(self).slot_unchanged(p1, h));
                            assert(p1.slot_unchanged(*self, h));
                        }
                    }
                }
                return Err(e);
            },
        };
        let ghost p2 = *self;
        proof {
            assert(p1.is_live(y.id()));
            assert(p1.state(y.id()) is Idle);
            assert(y.id() != x.id());
            assert(old(self).slot_unchanged(p1, y.id()));
            assert(p1.slot_unchanged(p2, x.id()));
            assert(p2.data(x.id()) == old(self).data(x.id()));
            assert(p2.data(y.id()) == old(self).data(y.id()));
            assert(p2.is_live(x.id()) && p2.is_live(y.id()));
            assert(p2.state(x.id()) == BorrowState::Exclusive);
            assert(p2.state(y.id()) == BorrowState::Exclusive);
        }
        let status = self.swap_routine(&ex, &ey);
        let ghost p3 = *self;
        proof {
            lemma_wf_state(*old(self), x.id());
            lemma_wf_state(*old(self), y.id());
            lemma_grant_end_inverse(old(self).state(x.id()));
            lemma_grant_end_inverse(old(self).state(y.id()));
            if p2.data(x.id()).len() != p2.data(y.id()).len() {
                assert(p2.slot_unchanged(p3, x.id()));
                assert(p2.slot_unchanged(p3, y.id()));
            }
            assert(p3.is_live(x.id()) && p3.state(x.id()) == BorrowState::Exclusive);
            assert(p3.is_live(y.id()) && p3.state(y.id()) == BorrowState::Exclusive);
        }
        let _ = self.end_exclusive(ey);
        let ghost p4 = *self;
        let _ = self.end_exclusive(ex);
        proof {
            assert(p3.slot_unchanged(p4, x.id()));
            assert(p4.slot_unchanged(*self, y.id()));
            assert forall|h: int| h != x.id() && h != y.id() implies old(self).slot_unchanged(
                *self,
                h,
            ) by {
                assert(old(self).slot_unchanged(p1, h));
                assert(p1.slot_unchanged(p2, h));
                assert(p2.slot_unchanged(p3, h));
                assert(p3.slot_unchanged(p4, h));
                assert(p4.slot_unchanged(*self, h));
            }
        }
        from_native_code(status)
    }

    /// Replace the guard state of the live slot `h`.
    fn set_state(&mut self, h: usize, next: BorrowState)
        requires
            old(self).wf(),
            old(self).is_live(h as int),
            state_wf(next),
        ensures
            final (self).wf(),
            final (self).num_slots() == old(self).num_slots(),
            old(self).counters_unchanged(*final (self)),
            old(self).unchanged_except(*final (self), h as int),
            final (self).live_handle_count() == old(self).live_handle_count(),
            final (self).is_live(h as int),
            final (self).state(h as int) == next,
            final (self).data(h as int) == old(self).data(h as int),
    {
        let ghost old_slots = self.slots@;
        let slot = &mut self.slots[h];
        match slot {
            Some(s) => {
                s.state = next;
            },
            None => {
            },
        }
        proof {
            lemma_count_live_update(old_slots, h as int, self.slots@[h as int]);
        }
    }
}

/// Ownership uniqueness: the exclusive view is granted only on a handle
/// with no live view at all, and while it is live no further view —
/// shared or exclusive — can be granted over the same handle; granting
/// shared views never produces exclusivity.
pub proof fn lemma_exclusive_is_unique(s: BorrowState)
    ensures
        spec_acquire_exclusive(s) is Some ==> live_views(s) == 0,
        spec_acquire_exclusive(s) matches Some(s2) ==> {
            &&& live_views(s2) == 1
            &&& spec_acquire_shared(s2) is None
            &&& spec_acquire_exclusive(s2) is None
        },
        spec_acquire_shared(s) matches Some(s2) ==> !(s2 is Exclusive),
{
}

/// Release accounting: in a well-formed pool, the number of invocations
/// of the native release routine always equals the number of handles
/// allocated minus the number still live — every released handle accounts
/// for exactly one release, and no handle is ever released twice.
pub proof fn lemma_release_once<T>(p: HandlePool<T>)
    requires
        p.wf(),
    ensures
        p.release_count() + p.live_handle_count() == p.num_slots(),
{
}

/// In a well-formed pool the guard state of every live handle is well
/// formed.
pub proof fn lemma_wf_state<T>(p: HandlePool<T>, h: int)
    requires
        p.wf(),
        p.is_live(h),
    ensures
        state_wf(p.state(h)),
{
}

/// The elements under a live handle came out of one allocation, so their
/// number fits the machine's address space.
pub proof fn lemma_data_len_bound<T>(p: HandlePool<T>, h: int)
    requires
        p.is_live(h),
    ensures
        p.data(h).len() <= usize::MAX,
{
    let v = p.slots@[h]->Some_0.data;
    vstd::std_specs::vec::axiom_spec_len(&v);
}

/// Ending a view undoes granting it: whatever guard state a view was
/// granted in, giving the grant back restores that state exactly.
pub proof fn lemma_grant_end_inverse(s: BorrowState)
    requires
        state_wf(s),
    ensures
        spec_acquire_shared(s) matches Some(s2) ==> spec_end_shared(s2) == Some(s),
        spec_acquire_exclusive(s) matches Some(s2) ==> spec_end_exclusive(s2) == Some(s),
{
}

} // verus!
