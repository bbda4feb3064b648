use rgsl::polynomials::check_same_len;
use rgsl::sf::check_order_array;
use rgsl::sf::check_order_range;
use rgsl::Error;

#[test]
fn test_order_range_accepts_fitting_spans() {
    assert_eq!(check_order_range(0, 4, 5), Ok(()));
    assert_eq!(check_order_range(0, 4, 4), Ok(()));
    assert_eq!(check_order_range(-5, -1, 4), Ok(()));
    assert_eq!(check_order_range(3, 3, 0), Ok(()));
}

#[test]
fn test_order_range_rejects_reversed_or_oversized() {
    assert_eq!(check_order_range(3, 2, 10).unwrap_err(), Error::Invalid);
    assert_eq!(check_order_range(0, 4, 3).unwrap_err(), Error::Invalid);
    assert_eq!(
        check_order_range(i32::MAX, i32::MIN, usize::MAX).unwrap_err(),
        Error::Invalid
    );
}

#[test]
fn test_order_range_extremes_never_panic() {
    // the span of the full order space still compares against the
    // length without overflow
    let r = check_order_range(i32::MIN, i32::MAX, usize::MAX);
    assert_eq!(r, Ok(()));
    assert_eq!(
        check_order_range(i32::MIN, i32::MAX, 7).unwrap_err(),
        Error::Invalid
    );
}

#[test]
fn test_order_array_accepts_fitting_spans() {
    assert_eq!(check_order_array(0, 4, 5), Ok(()));
    assert_eq!(check_order_array(2, 2, 1), Ok(()));
    assert_eq!(check_order_array(10, 12, 3), Ok(()));
}

#[test]
fn test_order_array_rejects_reversed_or_tight() {
    assert_eq!(check_order_array(3, 2, 10).unwrap_err(), Error::Invalid);
    assert_eq!(check_order_array(0, 4, 4).unwrap_err(), Error::Invalid);
    assert_eq!(check_order_array(0, 0, 0).unwrap_err(), Error::Invalid);
    assert_eq!(
        check_order_array(0, u32::MAX, 16).unwrap_err(),
        Error::Invalid
    );
}

#[test]
fn test_same_len_check() {
    let a: [f64; 2] = [1.0, 2.0];
    let b: [f64; 2] = [3.0, 4.0];
    let c: [f64; 1] = [5.0];
    let e: [f64; 0] = [];
    assert_eq!(check_same_len(&a, &b), Ok(()));
    assert_eq!(check_same_len(&e, &e), Ok(()));
    assert_eq!(check_same_len(&a, &c).unwrap_err(), Error::BadLength);
    assert_eq!(check_same_len(&e, &c).unwrap_err(), Error::BadLength);
}
