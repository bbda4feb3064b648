//! Domain enumeration transcoders.
//!
//! Each enumeration here is a small closed set of named argument kinds
//! with a stateless, total, two-way mapping to the integer constants the
//! native ABI fixes for them.  Encoding never fails; decoding returns
//! `None` on a code outside the closed set, which the fixed native ABI
//! never produces.

use vstd::prelude::*;

verus! {

/// Native constant for importance sampling.
pub const VEGAS_MODE_IMPORTANCE: i32 = 1;
/// Native constant for importance sampling without stratification.
pub const VEGAS_MODE_IMPORTANCE_ONLY: i32 = 0;
/// Native constant for stratified sampling.
pub const VEGAS_MODE_STRATIFIED: i32 = -1;

/// Whether the Monte Carlo integrator uses importance sampling or
/// stratified sampling, or may pick on its own.
#[derive(Clone, Copy, Debug, PartialEq, Eq, Structural)]
pub enum VegasMode {
    /// Importance sampling: allocate more sample points where the
    /// integrand is larger.
    Importance,
    /// Exclusively use importance sampling without any stratification.
    ImportanceOnly,
    /// Stratified sampling: divides the integration region into
    /// sub-regions and sample each sub-region separately.
    Stratified,
}

impl VegasMode {
    /// The native constant of this variant.
    pub open spec fn spec_code(self) -> i32 {
        match self {
            VegasMode::Importance => VEGAS_MODE_IMPORTANCE,
            VegasMode::ImportanceOnly => VEGAS_MODE_IMPORTANCE_ONLY,
            VegasMode::Stratified => VEGAS_MODE_STRATIFIED,
        }
    }

    /// The variant a native constant decodes to, if any.
    pub open spec fn spec_of_code(c: i32) -> Option<VegasMode> {
        if c == VEGAS_MODE_IMPORTANCE {
            Some(VegasMode::Importance)
        } else if c == VEGAS_MODE_IMPORTANCE_ONLY {
            Some(VegasMode::ImportanceOnly)
        } else if c == VEGAS_MODE_STRATIFIED {
            Some(VegasMode::Stratified)
        } else {
            None
        }
    }

    /// Encode this variant as its native constant; total, never fails.
    pub fn to_native(self) -> (c: i32)
        ensures
            c == self.spec_code(),
            Self::spec_of_code(c) == Some(self),
    {
        match self {
            VegasMode::Importance => VEGAS_MODE_IMPORTANCE,
            VegasMode::ImportanceOnly => VEGAS_MODE_IMPORTANCE_ONLY,
            VegasMode::Stratified => VEGAS_MODE_STRATIFIED,
        }
    }

    /// Decode a native constant; `None` on a code outside the closed
    /// set, which the fixed native ABI never produces.
    pub fn from_native(c: i32) -> (r: Option<VegasMode>)
        ensures
            r == Self::spec_of_code(c),
            (r matches Some(v) ==> v.spec_code() == c),
    {
        if c == VEGAS_MODE_IMPORTANCE {
            Some(VegasMode::Importance)
        } else if c == VEGAS_MODE_IMPORTANCE_ONLY {
            Some(VegasMode::ImportanceOnly)
        } else if c == VEGAS_MODE_STRATIFIED {
            Some(VegasMode::Stratified)
        } else {
            None
        }
    }
}

/// Native constant for a forward wavelet transform.
pub const WAVELET_FORWARD: i32 = 1;
/// Native constant for a backward wavelet transform.
pub const WAVELET_BACKWARD: i32 = -1;

/// The direction of a wavelet transform.
#[derive(Clone, Copy, Debug, PartialEq, Eq, Structural)]
pub enum WaveletDirection {
    Forward,
    Backward,
}

impl WaveletDirection {
    /// The native constant of this variant.
    pub open spec fn spec_code(self) -> i32 {
        match self {
            WaveletDirection::Forward => WAVELET_FORWARD,
            WaveletDirection::Backward => WAVELET_BACKWARD,
        }
    }

    /// The variant a native constant decodes to, if any.
    pub open spec fn spec_of_code(c: i32) -> Option<WaveletDirection> {
        if c == WAVELET_FORWARD {
            Some(WaveletDirection::Forward)
        } else if c == WAVELET_BACKWARD {
            Some(WaveletDirection::Backward)
        } else {
            None
        }
    }

    /// Encode this variant as its native constant; total, never fails.
    pub fn to_native(self) -> (c: i32)
        ensures
            c == self.spec_code(),
            Self::spec_of_code(c) == Some(self),
    {
        match self {
            WaveletDirection::Forward => WAVELET_FORWARD,
            WaveletDirection::Backward => WAVELET_BACKWARD,
        }
    }

    /// Decode a native constant; `None` on a code outside the closed
    /// set, which the fixed native ABI never produces.
    pub fn from_native(c: i32) -> (r: Option<WaveletDirection>)
        ensures
            r == Self::spec_of_code(c),
            (r matches Some(v) ==> v.spec_code() == c),
    {
        if c == WAVELET_FORWARD {
            Some(WaveletDirection::Forward)
        } else if c == WAVELET_BACKWARD {
            Some(WaveletDirection::Backward)
        } else {
            None
        }
    }
}

/// Native constant for the Schmidt semi-normalization.
pub const SF_LEGENDRE_SCHMIDT: i32 = 0;
/// Native constant for the spherical-harmonic normalization.
pub const SF_LEGENDRE_SPHARM: i32 = 1;
/// Native constant for the full normalization.
pub const SF_LEGENDRE_FULL: i32 = 2;
/// Native constant for unnormalized associated Legendre polynomials.
pub const SF_LEGENDRE_NONE: i32 = 3;

/// The normalization of associated Legendre functions.
#[derive(Clone, Copy, Debug, PartialEq, Eq, Structural)]
pub enum SfLegendreNorm {
    Schmidt,
    SphericalHarmonic,
    Full,
    Unnormalized,
}

impl SfLegendreNorm {
    /// The native constant of this variant.
    pub open spec fn spec_code(self) -> i32 {
        match self {
            SfLegendreNorm::Schmidt => SF_LEGENDRE_SCHMIDT,
            SfLegendreNorm::SphericalHarmonic => SF_LEGENDRE_SPHARM,
            SfLegendreNorm::Full => SF_LEGENDRE_FULL,
            SfLegendreNorm::Unnormalized => SF_LEGENDRE_NONE,
        }
    }

    /// The variant a native constant decodes to, if any.
    pub open spec fn spec_of_code(c: i32) -> Option<SfLegendreNorm> {
        if c == SF_LEGENDRE_SCHMIDT {
            Some(SfLegendreNorm::Schmidt)
        } else if c == SF_LEGENDRE_SPHARM {
            Some(SfLegendreNorm::SphericalHarmonic)
        } else if c == SF_LEGENDRE_FULL {
            Some(SfLegendreNorm::Full)
        } else if c == SF_LEGENDRE_NONE {
            Some(SfLegendreNorm::Unnormalized)
        } else {
            None
        }
    }

    /// Encode this variant as its native constant; total, never fails.
    pub fn to_native(self) -> (c: i32)
        ensures
            c == self.spec_code(),
            Self::spec_of_code(c) == Some(self),
    {
        match self {
            SfLegendreNorm::Schmidt => SF_LEGENDRE_SCHMIDT,
            SfLegendreNorm::SphericalHarmonic => SF_LEGENDRE_SPHARM,
            SfLegendreNorm::Full => SF_LEGENDRE_FULL,
            SfLegendreNorm::Unnormalized => SF_LEGENDRE_NONE,
        }
    }

    /// Decode a native constant; `None` on a code outside the closed
    /// set, which the fixed native ABI never produces.
    pub fn from_native(c: i32) -> (r: Option<SfLegendreNorm>)
        ensures
            r == Self::spec_of_code(c),
            (r matches Some(v) ==> v.spec_code() == c),
    {
        if c == SF_LEGENDRE_SCHMIDT {
            Some(SfLegendreNorm::Schmidt)
        } else if c == SF_LEGENDRE_SPHARM {
            Some(SfLegendreNorm::SphericalHarmonic)
        } else if c == SF_LEGENDRE_FULL {
            Some(SfLegendreNorm::Full)
        } else if c == SF_LEGENDRE_NONE {
            Some(SfLegendreNorm::Unnormalized)
        } else {
            None
        }
    }
}

/// Native constant for padding a signal's ends with zeros.
pub const FILTER_END_PADZERO: i32 = 0;
/// Native constant for padding a signal's ends with the end values.
pub const FILTER_END_PADVALUE: i32 = 1;
/// Native constant for truncating the window at a signal's ends.
pub const FILTER_END_TRUNCATE: i32 = 2;

/// How a filter handles a signal's end points.
#[derive(Clone, Copy, Debug, PartialEq, Eq, Structural)]
pub enum FilterEnd {
    PadZero,
    PadValue,
    Truncate,
}

impl FilterEnd {
    /// The native constant of this variant.
    pub open spec fn spec_code(self) -> i32 {
        match self {
            FilterEnd::PadZero => FILTER_END_PADZERO,
            FilterEnd::PadValue => FILTER_END_PADVALUE,
            FilterEnd::Truncate => FILTER_END_TRUNCATE,
        }
    }

    /// The variant a native constant decodes to, if any.
    pub open spec fn spec_of_code(c: i32) -> Option<FilterEnd> {
        if c == FILTER_END_PADZERO {
            Some(FilterEnd::PadZero)
        } else if c == FILTER_END_PADVALUE {
            Some(FilterEnd::PadValue)
        } else if c == FILTER_END_TRUNCATE {
            Some(FilterEnd::Truncate)
        } else {
            None
        }
    }

    /// Encode this variant as its native constant; total, never fails.
    pub fn to_native(self) -> (c: i32)
        ensures
            c == self.spec_code(),
            Self::spec_of_code(c) == Some(self),
    {
        match self {
            FilterEnd::PadZero => FILTER_END_PADZERO,
            FilterEnd::PadValue => FILTER_END_PADVALUE,
            FilterEnd::Truncate => FILTER_END_TRUNCATE,
        }
    }

    /// Decode a native constant; `None` on a code outside the closed
    /// set, which the fixed native ABI never produces.
    pub fn from_native(c: i32) -> (r: Option<FilterEnd>)
        ensures
            r == Self::spec_of_code(c),
            (r matches Some(v) ==> v.spec_code() == c),
    {
        if c == FILTER_END_PADZERO {
            Some(FilterEnd::PadZero)
        } else if c == FILTER_END_PADVALUE {
            Some(FilterEnd::PadValue)
        } else if c == FILTER_END_TRUNCATE {
            Some(FilterEnd::Truncate)
        } else {
            None
        }
    }
}

/// Native constant for the median absolute deviation scale estimate.
pub const FILTER_SCALE_MAD: i32 = 0;
/// Native constant for the inter-quartile range scale estimate.
pub const FILTER_SCALE_IQR: i32 = 1;
/// Native constant for the S_n scale estimate.
pub const FILTER_SCALE_SN: i32 = 2;
/// Native constant for the Q_n scale estimate.
pub const FILTER_SCALE_QN: i32 = 3;

/// The robust scale estimate an impulse filter uses.
#[derive(Clone, Copy, Debug, PartialEq, Eq, Structural)]
pub enum FilterScale {
    MedianAbsoluteDeviation,
    InterQuartileRange,
    SN,
    QN,
}

impl FilterScale {
    /// The native constant of this variant.
    pub open spec fn spec_code(self) -> i32 {
        match self {
            FilterScale::MedianAbsoluteDeviation => FILTER_SCALE_MAD,
            FilterScale::InterQuartileRange => FILTER_SCALE_IQR,
            FilterScale::SN => FILTER_SCALE_SN,
            FilterScale::QN => FILTER_SCALE_QN,
        }
    }

    /// The variant a native constant decodes to, if any.
    pub open spec fn spec_of_code(c: i32) -> Option<FilterScale> {
        if c == FILTER_SCALE_MAD {
            Some(FilterScale::MedianAbsoluteDeviation)
        } else if c == FILTER_SCALE_IQR {
            Some(FilterScale::InterQuartileRange)
        } else if c == FILTER_SCALE_SN {
            Some(FilterScale::SN)
        } else if c == FILTER_SCALE_QN {
            Some(FilterScale::QN)
        } else {
            None
        }
    }

    /// Encode this variant as its native constant; total, never fails.
    pub fn to_native(self) -> (c: i32)
        ensures
            c == self.spec_code(),
            Self::spec_of_code(c) == Some(self),
    {
        match self {
            FilterScale::MedianAbsoluteDeviation => FILTER_SCALE_MAD,
            FilterScale::InterQuartileRange => FILTER_SCALE_IQR,
            FilterScale::SN => FILTER_SCALE_SN,
            FilterScale::QN => FILTER_SCALE_QN,
        }
    }

    /// Decode a native constant; `None` on a code outside the closed
    /// set, which the fixed native ABI never produces.
    pub fn from_native(c: i32) -> (r: Option<FilterScale>)
        ensures
            r == Self::spec_of_code(c),
            (r matches Some(v) ==> v.spec_code() == c),
    {
        if c == FILTER_SCALE_MAD {
            Some(FilterScale::MedianAbsoluteDeviation)
        } else if c == FILTER_SCALE_IQR {
            Some(FilterScale::InterQuartileRange)
        } else if c == FILTER_SCALE_SN {
            Some(FilterScale::SN)
        } else if c == FILTER_SCALE_QN {
            Some(FilterScale::QN)
        } else {
            None
        }
    }
}

} // verus!
