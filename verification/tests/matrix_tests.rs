use rgsl::handle::HandlePool;
use rgsl::matrix;
use rgsl::matrix::alloc_matrix;
use rgsl::matrix::free_matrix;
use rgsl::Error;

#[test]
fn test_matrix_shape_and_row_major_elements() {
    let mut pool: HandlePool<f64> = HandlePool::new(8);
    let m = alloc_matrix(&mut pool, 2, 3, 0.0).unwrap();
    assert_eq!(m.shape(), (2, 3));

    let ev = pool.borrow_exclusive(m.handle()).unwrap();
    for i in 0..2usize {
        for j in 0..3usize {
            matrix::set(&mut pool, &m, &ev, i, j, (10 * i + j) as f64).unwrap();
        }
    }
    assert_eq!(
        matrix::set(&mut pool, &m, &ev, 2, 0, 0.0).unwrap_err(),
        Error::Invalid
    );
    assert_eq!(
        matrix::set(&mut pool, &m, &ev, 0, 3, 0.0).unwrap_err(),
        Error::Invalid
    );
    pool.end_exclusive(ev).unwrap();

    let s = pool.borrow_shared(m.handle()).unwrap();
    for i in 0..2usize {
        for j in 0..3usize {
            assert_eq!(matrix::get(&pool, &m, &s, i, j), Ok((10 * i + j) as f64));
        }
    }
    assert_eq!(matrix::get(&pool, &m, &s, 2, 0).unwrap_err(), Error::Invalid);
    // element (1, 0) lies at flat index 3 in row-major order: writing
    // it must not have touched (0, 2) at flat index 2
    assert_eq!(matrix::get(&pool, &m, &s, 0, 2), Ok(2.0));
    assert_eq!(matrix::get(&pool, &m, &s, 1, 0), Ok(10.0));
    pool.end_shared(s).unwrap();

    free_matrix(&mut pool, m).unwrap();
    assert_eq!(pool.release_invocations(), 1);
}

#[test]
fn test_matrix_copy_checks_shape_first() {
    let mut pool: HandlePool<i64> = HandlePool::new(8);
    let a = alloc_matrix(&mut pool, 2, 3, 1).unwrap();
    let b = alloc_matrix(&mut pool, 3, 2, 0).unwrap();
    let c = alloc_matrix(&mut pool, 2, 3, 0).unwrap();

    // 2x3 and 3x2 hold the same number of elements, but the shapes
    // disagree: refused before the routine runs
    assert_eq!(matrix::copy(&mut pool, &a, &b).unwrap_err(), Error::BadLength);
    assert_eq!(pool.routine_invocations(), 0);

    assert_eq!(matrix::copy(&mut pool, &a, &c), Ok(()));
    assert_eq!(pool.routine_invocations(), 1);
    let s = pool.borrow_shared(c.handle()).unwrap();
    assert_eq!(matrix::get(&pool, &c, &s, 1, 2), Ok(1));
    pool.end_shared(s).unwrap();

    free_matrix(&mut pool, a).unwrap();
    free_matrix(&mut pool, b).unwrap();
    free_matrix(&mut pool, c).unwrap();
}

#[test]
fn test_matrix_allocation_overflow_is_no_memory() {
    let mut pool: HandlePool<i64> = HandlePool::new(8);
    assert_eq!(
        alloc_matrix(&mut pool, usize::MAX, 2, 0).unwrap_err(),
        Error::NoMemory
    );
    assert_eq!(pool.live_handles(), 0);
}

#[test]
fn test_matrix_free_refused_while_borrowed() {
    let mut pool: HandlePool<i64> = HandlePool::new(8);
    let m = alloc_matrix(&mut pool, 1, 1, 0).unwrap();
    let s = pool.borrow_shared(m.handle()).unwrap();
    let (m, e) = free_matrix(&mut pool, m).unwrap_err();
    assert_eq!(e, Error::Invalid);
    pool.end_shared(s).unwrap();
    free_matrix(&mut pool, m).unwrap();
    assert_eq!(pool.release_invocations(), 1);
}
