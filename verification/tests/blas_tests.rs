use rgsl::blas;
use rgsl::handle::HandlePool;
use rgsl::vector::alloc_vector;
use rgsl::vector::check_equal_len;
use rgsl::vector::free_vector;
use rgsl::Error;

#[test]
fn test_copy_mismatched_lengths_never_reaches_routine() {
    // vectors of length 3 and 4: BadLength, and the native stub was
    // invoked zero times
    let mut pool: HandlePool<f64> = HandlePool::new(8);
    let x = alloc_vector(&mut pool, 3, 1.0).unwrap();
    let y = alloc_vector(&mut pool, 4, 0.0).unwrap();

    assert_eq!(blas::copy(&mut pool, &x, &y).unwrap_err(), Error::BadLength);
    assert_eq!(pool.routine_invocations(), 0);

    assert_eq!(blas::swap(&mut pool, &x, &y).unwrap_err(), Error::BadLength);
    assert_eq!(pool.routine_invocations(), 0);

    free_vector(&mut pool, x).unwrap();
    free_vector(&mut pool, y).unwrap();
}

#[test]
fn test_check_equal_len() {
    let mut pool: HandlePool<i64> = HandlePool::new(8);
    let x = alloc_vector(&mut pool, 3, 0).unwrap();
    let y = alloc_vector(&mut pool, 4, 0).unwrap();
    let z = alloc_vector(&mut pool, 3, 0).unwrap();
    assert_eq!(check_equal_len(&x, &y).unwrap_err(), Error::BadLength);
    assert_eq!(check_equal_len(&x, &z), Ok(()));
    free_vector(&mut pool, x).unwrap();
    free_vector(&mut pool, y).unwrap();
    free_vector(&mut pool, z).unwrap();
}

#[test]
fn test_copy_moves_elements_and_counts_one_invocation() {
    let mut pool: HandlePool<i64> = HandlePool::new(8);
    let x = alloc_vector(&mut pool, 3, 0).unwrap();
    let y = alloc_vector(&mut pool, 3, -1).unwrap();

    let ev = pool.borrow_exclusive(x.handle()).unwrap();
    for i in 0..3usize {
        pool.set(&ev, i, (10 + i) as i64).unwrap();
    }
    pool.end_exclusive(ev).unwrap();

    assert_eq!(blas::copy(&mut pool, &x, &y), Ok(()));
    assert_eq!(pool.routine_invocations(), 1);

    let s = pool.borrow_shared(y.handle()).unwrap();
    for i in 0..3usize {
        assert_eq!(pool.get(&s, i), Ok((10 + i) as i64));
    }
    pool.end_shared(s).unwrap();

    // the source is untouched
    let s = pool.borrow_shared(x.handle()).unwrap();
    for i in 0..3usize {
        assert_eq!(pool.get(&s, i), Ok((10 + i) as i64));
    }
    pool.end_shared(s).unwrap();

    free_vector(&mut pool, x).unwrap();
    free_vector(&mut pool, y).unwrap();
}

#[test]
fn test_swap_exchanges_elements() {
    let mut pool: HandlePool<i64> = HandlePool::new(8);
    let x = alloc_vector(&mut pool, 2, 5).unwrap();
    let y = alloc_vector(&mut pool, 2, 6).unwrap();

    assert_eq!(blas::swap(&mut pool, &x, &y), Ok(()));
    assert_eq!(pool.routine_invocations(), 1);

    let s = pool.borrow_shared(x.handle()).unwrap();
    assert_eq!(pool.get(&s, 0), Ok(6));
    pool.end_shared(s).unwrap();
    let s = pool.borrow_shared(y.handle()).unwrap();
    assert_eq!(pool.get(&s, 1), Ok(5));
    pool.end_shared(s).unwrap();

    free_vector(&mut pool, x).unwrap();
    free_vector(&mut pool, y).unwrap();
}

#[test]
fn test_copy_onto_itself_is_refused_as_aliasing() {
    let mut pool: HandlePool<i64> = HandlePool::new(8);
    let x = alloc_vector(&mut pool, 3, 1).unwrap();
    assert_eq!(blas::copy(&mut pool, &x, &x).unwrap_err(), Error::Invalid);
    assert_eq!(blas::swap(&mut pool, &x, &x).unwrap_err(), Error::Invalid);
    assert_eq!(pool.routine_invocations(), 0);
    free_vector(&mut pool, x).unwrap();
}

#[test]
fn test_copy_refused_while_destination_is_borrowed() {
    let mut pool: HandlePool<i64> = HandlePool::new(8);
    let x = alloc_vector(&mut pool, 3, 1).unwrap();
    let y = alloc_vector(&mut pool, 3, 2).unwrap();

    let s = pool.borrow_shared(y.handle()).unwrap();
    assert_eq!(blas::copy(&mut pool, &x, &y).unwrap_err(), Error::Invalid);
    assert_eq!(pool.routine_invocations(), 0);
    pool.end_shared(s).unwrap();

    assert_eq!(blas::copy(&mut pool, &x, &y), Ok(()));
    free_vector(&mut pool, x).unwrap();
    free_vector(&mut pool, y).unwrap();
}
