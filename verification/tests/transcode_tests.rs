use rgsl::blas::Diag;
use rgsl::blas::Order;
use rgsl::blas::Side;
use rgsl::blas::Transpose;
use rgsl::blas::Uplo;
use rgsl::cblas::H;
use rgsl::eigen::Sort;
use rgsl::enums::FilterEnd;
use rgsl::enums::FilterScale;
use rgsl::enums::SfLegendreNorm;
use rgsl::enums::VegasMode;
use rgsl::enums::WaveletDirection;
use rgsl::polynomials::CubicRoots;
use rgsl::polynomials::Poly;
use rgsl::polynomials::QuadraticRoots;
use rgsl::sf::Prec;

#[test]
fn test_transpose_codes() {
    assert_eq!(Transpose::NoTranspose.to_native(), 111);
    assert_eq!(Transpose::Transpose.to_native(), 112);
    assert_eq!(Transpose::ConjugateTranspose.to_native(), 113);
    for v in [
        Transpose::NoTranspose,
        Transpose::Transpose,
        Transpose::ConjugateTranspose,
    ] {
        assert_eq!(Transpose::from_native(v.to_native()), Some(v));
    }
    assert_eq!(Transpose::from_native(110), None);
}

#[test]
fn test_uplo_codes() {
    assert_eq!(Uplo::Upper.to_native(), 121);
    assert_eq!(Uplo::Lower.to_native(), 122);
    for v in [Uplo::Upper, Uplo::Lower] {
        assert_eq!(Uplo::from_native(v.to_native()), Some(v));
    }
    assert_eq!(Uplo::from_native(0), None);
}

#[test]
fn test_order_codes() {
    assert_eq!(Order::RowMajor.to_native(), 101);
    assert_eq!(Order::ColumnMajor.to_native(), 102);
    for v in [Order::RowMajor, Order::ColumnMajor] {
        assert_eq!(Order::from_native(v.to_native()), Some(v));
    }
    assert_eq!(Order::from_native(103), None);
}

#[test]
fn test_side_codes() {
    assert_eq!(Side::Left.to_native(), 141);
    assert_eq!(Side::Right.to_native(), 142);
    for v in [Side::Left, Side::Right] {
        assert_eq!(Side::from_native(v.to_native()), Some(v));
    }
    assert_eq!(Side::from_native(140), None);
}

#[test]
fn test_diag_codes() {
    assert_eq!(Diag::NonUnit.to_native(), 131);
    assert_eq!(Diag::Unit.to_native(), 132);
    for v in [Diag::NonUnit, Diag::Unit] {
        assert_eq!(Diag::from_native(v.to_native()), Some(v));
    }
    assert_eq!(Diag::from_native(-1), None);
}

#[test]
fn test_eigen_sort_codes() {
    assert_eq!(Sort::Asc.to_native(), 0);
    assert_eq!(Sort::Desc.to_native(), 1);
    assert_eq!(Sort::AbsAsc.to_native(), 2);
    assert_eq!(Sort::AbsDesc.to_native(), 3);
    for v in [Sort::Asc, Sort::Desc, Sort::AbsAsc, Sort::AbsDesc] {
        assert_eq!(Sort::from_native(v.to_native()), Some(v));
    }
    assert_eq!(Sort::from_native(4), None);
}

#[test]
fn test_vegas_mode_codes() {
    assert_eq!(VegasMode::Importance.to_native(), 1);
    assert_eq!(VegasMode::ImportanceOnly.to_native(), 0);
    assert_eq!(VegasMode::Stratified.to_native(), -1);
    for v in [
        VegasMode::Importance,
        VegasMode::ImportanceOnly,
        VegasMode::Stratified,
    ] {
        assert_eq!(VegasMode::from_native(v.to_native()), Some(v));
    }
    assert_eq!(VegasMode::from_native(2), None);
}

#[test]
fn test_wavelet_direction_codes() {
    assert_eq!(WaveletDirection::Forward.to_native(), 1);
    assert_eq!(WaveletDirection::Backward.to_native(), -1);
    for v in [WaveletDirection::Forward, WaveletDirection::Backward] {
        assert_eq!(WaveletDirection::from_native(v.to_native()), Some(v));
    }
    assert_eq!(WaveletDirection::from_native(0), None);
}

#[test]
fn test_legendre_norm_codes() {
    assert_eq!(SfLegendreNorm::Schmidt.to_native(), 0);
    assert_eq!(SfLegendreNorm::SphericalHarmonic.to_native(), 1);
    assert_eq!(SfLegendreNorm::Full.to_native(), 2);
    assert_eq!(SfLegendreNorm::Unnormalized.to_native(), 3);
    for v in [
        SfLegendreNorm::Schmidt,
        SfLegendreNorm::SphericalHarmonic,
        SfLegendreNorm::Full,
        SfLegendreNorm::Unnormalized,
    ] {
        assert_eq!(SfLegendreNorm::from_native(v.to_native()), Some(v));
    }
    assert_eq!(SfLegendreNorm::from_native(4), None);
}

#[test]
fn test_filter_end_codes() {
    assert_eq!(FilterEnd::PadZero.to_native(), 0);
    assert_eq!(FilterEnd::PadValue.to_native(), 1);
    assert_eq!(FilterEnd::Truncate.to_native(), 2);
    for v in [FilterEnd::PadZero, FilterEnd::PadValue, FilterEnd::Truncate] {
        assert_eq!(FilterEnd::from_native(v.to_native()), Some(v));
    }
    assert_eq!(FilterEnd::from_native(3), None);
}

#[test]
fn test_filter_scale_codes() {
    assert_eq!(FilterScale::MedianAbsoluteDeviation.to_native(), 0);
    assert_eq!(FilterScale::InterQuartileRange.to_native(), 1);
    assert_eq!(FilterScale::SN.to_native(), 2);
    assert_eq!(FilterScale::QN.to_native(), 3);
    for v in [
        FilterScale::MedianAbsoluteDeviation,
        FilterScale::InterQuartileRange,
        FilterScale::SN,
        FilterScale::QN,
    ] {
        assert_eq!(FilterScale::from_native(v.to_native()), Some(v));
    }
    assert_eq!(FilterScale::from_native(4), None);
}

#[test]
fn test_prec_codes() {
    assert_eq!(Prec::Double.to_native(), 0);
    assert_eq!(Prec::Single.to_native(), 1);
    assert_eq!(Prec::Approx.to_native(), 2);
    for v in [Prec::Double, Prec::Single, Prec::Approx] {
        assert_eq!(Prec::from_native(v.to_native()), Some(v));
    }
    assert_eq!(Prec::from_native(3), None);
}

#[test]
fn test_poly_len() {
    let coeffs: [f64; 3] = [1.0, -2.0, 1.0];
    let p = Poly::new(&coeffs);
    assert_eq!(p.len(), 3);
    assert!(!p.is_empty());

    let empty: [f64; 0] = [];
    let p = Poly::new(&empty);
    assert_eq!(p.len(), 0);
    assert!(p.is_empty());
}

#[test]
fn test_root_kinds_compare() {
    let two = QuadraticRoots::Two(1.0f64, 1.0f64);
    assert_eq!(two, QuadraticRoots::Two(1.0, 1.0));
    assert_ne!(two, QuadraticRoots::One(1.0));
    let none: QuadraticRoots<f64> = QuadraticRoots::NoRoots;
    assert_ne!(none, two);
    assert_eq!(
        CubicRoots::Three(1.0f64, 2.0, 3.0),
        CubicRoots::Three(1.0, 2.0, 3.0)
    );
    assert_ne!(CubicRoots::One(1.0f64), CubicRoots::Three(1.0, 2.0, 3.0));
}

#[test]
fn test_h_from_flag() {
    match H::from_flag(-1, 2.0f64, 3.0, 4.0, 5.0) {
        Some(H::Full { h11, h21, h12, h22 }) => {
            assert_eq!((h11, h21, h12, h22), (2.0, 3.0, 4.0, 5.0));
        }
        _ => panic!("flag -1 must decode to the full representation"),
    }
    match H::from_flag(0, 2.0f64, 3.0, 4.0, 5.0) {
        Some(H::OffDiag { h21, h12 }) => assert_eq!((h21, h12), (3.0, 4.0)),
        _ => panic!("flag 0 must decode to the off-diagonal representation"),
    }
    match H::from_flag(1, 2.0f64, 3.0, 4.0, 5.0) {
        Some(H::Diag { h11, h22 }) => assert_eq!((h11, h22), (2.0, 5.0)),
        _ => panic!("flag 1 must decode to the diagonal representation"),
    }
    match H::from_flag(-2, 2.0f64, 3.0, 4.0, 5.0) {
        Some(H::Id) => {}
        _ => panic!("flag -2 must decode to the identity"),
    }
    assert!(H::from_flag(5, 2.0f64, 3.0, 4.0, 5.0).is_none());
    assert!(H::from_flag(2, 2.0f64, 3.0, 4.0, 5.0).is_none());
}

#[test]
fn test_h_kinds() {
    let full = H::Full {
        h11: 1.0f64,
        h21: 0.0,
        h12: 0.0,
        h22: 1.0,
    };
    let copied = full;
    if let H::Full { h11, h22, .. } = copied {
        assert_eq!(h11, 1.0);
        assert_eq!(h22, 1.0);
    } else {
        panic!("expected the full representation");
    }
    let id: H<f64> = H::Id;
    if let H::Id = id {
    } else {
        panic!("expected the identity representation");
    }
}
