use rgsl::handle::HandlePool;
use rgsl::vector::alloc_vector;
use rgsl::vector::free_vector;
use rgsl::Error;

#[test]
fn test_owned_vector_write_then_shared_reads() {
    // Allocate a length-5 owned vector view, borrow it exclusively,
    // write 1..=5, drop the exclusive view, read the values back
    // through two concurrently live shared views, drop those, release
    // the owner: exactly one release call, no panic anywhere.
    let mut pool: HandlePool<f64> = HandlePool::new(16);
    let v = alloc_vector(&mut pool, 5, 0.0).unwrap();

    let ev = pool.borrow_exclusive(v.handle()).unwrap();
    for i in 0..5usize {
        pool.set(&ev, i, (i + 1) as f64).unwrap();
    }
    pool.end_exclusive(ev).unwrap();

    let s1 = pool.borrow_shared(v.handle()).unwrap();
    let s2 = pool.borrow_shared(v.handle()).unwrap();
    for i in 0..5usize {
        assert_eq!(pool.get(&s1, i), Ok((i + 1) as f64));
        assert_eq!(pool.get(&s2, i), Ok((i + 1) as f64));
    }
    pool.end_shared(s1).unwrap();
    pool.end_shared(s2).unwrap();

    assert_eq!(pool.release_invocations(), 0);
    free_vector(&mut pool, v).unwrap();
    assert_eq!(pool.release_invocations(), 1);
}

#[test]
fn test_exclusive_view_excludes_all_others() {
    let mut pool: HandlePool<i64> = HandlePool::new(4);
    let v = alloc_vector(&mut pool, 3, 0).unwrap();

    let ev = pool.borrow_exclusive(v.handle()).unwrap();
    assert_eq!(pool.borrow_exclusive(v.handle()).unwrap_err(), Error::Invalid);
    assert_eq!(pool.borrow_shared(v.handle()).unwrap_err(), Error::Invalid);
    pool.end_exclusive(ev).unwrap();

    let s1 = pool.borrow_shared(v.handle()).unwrap();
    let s2 = pool.borrow_shared(v.handle()).unwrap();
    assert_eq!(pool.borrow_exclusive(v.handle()).unwrap_err(), Error::Invalid);
    pool.end_shared(s1).unwrap();
    pool.end_shared(s2).unwrap();

    let ev = pool.borrow_exclusive(v.handle()).unwrap();
    pool.end_exclusive(ev).unwrap();
    free_vector(&mut pool, v).unwrap();
}

#[test]
fn test_release_refused_while_view_lives() {
    let mut pool: HandlePool<i64> = HandlePool::new(4);
    let v = alloc_vector(&mut pool, 2, 7).unwrap();
    let s = pool.borrow_shared(v.handle()).unwrap();

    let (v, e) = free_vector(&mut pool, v).unwrap_err();
    assert_eq!(e, Error::Invalid);
    assert_eq!(pool.release_invocations(), 0);

    pool.end_shared(s).unwrap();
    free_vector(&mut pool, v).unwrap();
    assert_eq!(pool.release_invocations(), 1);
}

#[test]
fn test_allocation_fails_with_no_memory_at_capacity() {
    let mut pool: HandlePool<i64> = HandlePool::new(1);
    let v = alloc_vector(&mut pool, 4, 0).unwrap();
    assert_eq!(alloc_vector(&mut pool, 4, 0).unwrap_err(), Error::NoMemory);
    free_vector(&mut pool, v).unwrap();
    let w = alloc_vector(&mut pool, 4, 0).unwrap();
    assert_eq!(pool.live_handles(), 1);
    free_vector(&mut pool, w).unwrap();
    assert_eq!(pool.live_handles(), 0);
    assert_eq!(pool.release_invocations(), 2);
}

#[test]
fn test_element_access_is_bounds_checked() {
    let mut pool: HandlePool<i64> = HandlePool::new(4);
    let v = alloc_vector(&mut pool, 3, 9).unwrap();

    let ev = pool.borrow_exclusive(v.handle()).unwrap();
    assert_eq!(pool.set(&ev, 3, 1).unwrap_err(), Error::Invalid);
    pool.end_exclusive(ev).unwrap();

    let s = pool.borrow_shared(v.handle()).unwrap();
    assert_eq!(pool.get(&s, 2), Ok(9));
    assert_eq!(pool.get(&s, 3).unwrap_err(), Error::Invalid);
    pool.end_shared(s).unwrap();

    free_vector(&mut pool, v).unwrap();
}

#[test]
fn test_view_of_foreign_handle_reports_fault() {
    // a view minted by a richer pool names a handle this pool never
    // allocated: access through it reports an invalid pointer
    let mut rich: HandlePool<i64> = HandlePool::new(4);
    let a = alloc_vector(&mut rich, 1, 0).unwrap();
    let b = alloc_vector(&mut rich, 1, 0).unwrap();
    let view_of_b = rich.borrow_shared(b.handle()).unwrap();

    let poor: HandlePool<i64> = HandlePool::new(4);
    assert_eq!(poor.get(&view_of_b, 0).unwrap_err(), Error::Fault);

    rich.end_shared(view_of_b).unwrap();
    free_vector(&mut rich, a).unwrap();
    free_vector(&mut rich, b).unwrap();
}

#[test]
fn test_vector_metadata_reads() {
    let mut pool: HandlePool<i64> = HandlePool::new(4);
    let v = alloc_vector(&mut pool, 3, 0).unwrap();
    let e = alloc_vector(&mut pool, 0, 0).unwrap();
    assert_eq!(v.len(), 3);
    assert!(!v.is_empty());
    assert_eq!(e.len(), 0);
    assert!(e.is_empty());
    free_vector(&mut pool, v).unwrap();
    free_vector(&mut pool, e).unwrap();
}
