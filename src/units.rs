//! Quantized numbers and the unit values built on them.
//!
//! A number is stored in thousandths as an integer, so that values built from
//! it are hashable and totally ordered.

use vstd::prelude::*;

verus! {

/// Factor between a number and its stored integer: three decimal digits are kept.
pub const FP_PRECISION_MULTIPLIER: isize = 1000;

/// A number stored as `round(value * 1000)`; equality and order are those of
/// the stored integer.
#[derive(Debug, Copy, Clone, PartialEq, Eq, Structural, PartialOrd, Ord, Hash)]
pub struct FloatValue {
    pub number: isize,
}

/// `v * 1000` can be stored in an `isize`.
pub open spec fn scaled_fits(v: int) -> bool {
    isize::MIN <= v * 1000 <= isize::MAX
}

impl FloatValue {
    /// Builds the value of a whole number, stored exactly as `value * 1000`.
    pub fn const_new(value: isize) -> (r: Self)
        requires
            scaled_fits(value as int),
        ensures
            r.number == value * 1000,
    {
        FloatValue { number: value * FP_PRECISION_MULTIPLIER }
    }
}

impl Default for FloatValue {
    fn default() -> (r: Self)
        ensures
            r.number == 0,
    {
        FloatValue::const_new(0)
    }
}

/// A percentage, `5` meaning `5%`.
#[derive(Debug, Copy, Clone, PartialEq, Eq, Structural, PartialOrd, Ord, Hash)]
pub struct PercentageValue {
    pub number: FloatValue,
}

impl PercentageValue {
    /// Builds the percentage of a whole number.
    pub fn const_new(value: isize) -> (r: Self)
        requires
            scaled_fits(value as int),
        ensures
            r.number.number == value * 1000,
    {
        PercentageValue { number: FloatValue::const_new(value) }
    }
}

impl Default for PercentageValue {
    fn default() -> (r: Self)
        ensures
            r.number.number == 0,
    {
        PercentageValue::const_new(0)
    }
}

/// Unit of a length.
#[derive(Debug, Copy, Clone, PartialEq, Eq, Structural, PartialOrd, Ord, Hash)]
pub enum SizeMetric {
    Px,
    Pt,
    Em,
    Percent,
}

impl Default for SizeMetric {
    fn default() -> (r: Self)
        ensures
            r == SizeMetric::Px,
    {
        SizeMetric::Px
    }
}

/// Suffix with which a length unit is written.
pub open spec fn size_metric_suffix(m: SizeMetric) -> Seq<char> {
    match m {
        SizeMetric::Px => "px"@,
        SizeMetric::Pt => "pt"@,
        // `em` lengths have always been rendered with this suffix
        SizeMetric::Em => "pt"@,
        SizeMetric::Percent => "%"@,
    }
}

impl SizeMetric {
    /// Suffix with which this unit is written after a number.
    pub fn as_str(&self) -> (r: &'static str)
        ensures
            r@ == size_metric_suffix(*self),
    {
        match self {
            SizeMetric::Px => "px",
            SizeMetric::Pt => "pt",
            SizeMetric::Em => "pt",
            SizeMetric::Percent => "%",
        }
    }
}

/// A length: a quantized number with its unit.
#[derive(Debug, Copy, Clone, PartialEq, Eq, Structural, PartialOrd, Ord, Hash)]
pub struct PixelValue {
    pub metric: SizeMetric,
    pub number: FloatValue,
}

impl PixelValue {
    /// `value` whole pixels.
    pub open spec fn spec_px(value: int) -> PixelValue {
        PixelValue { metric: SizeMetric::Px, number: FloatValue { number: (value * 1000) as isize } }
    }

    /// Zero pixels.
    pub open spec fn spec_zero() -> PixelValue {
        PixelValue::spec_px(0)
    }

    /// Zero pixels.
    pub fn zero() -> (r: Self)
        ensures
            r.metric == SizeMetric::Px,
            r.number.number == 0,
    {
        Self::const_px(0)
    }

    /// A whole number of pixels.
    pub fn const_px(value: isize) -> (r: Self)
        requires
            scaled_fits(value as int),
        ensures
            r.metric == SizeMetric::Px,
            r.number.number == value * 1000,
    {
        Self::const_from_metric(SizeMetric::Px, value)
    }

    /// A whole number of `em`.
    pub fn const_em(value: isize) -> (r: Self)
        requires
            scaled_fits(value as int),
        ensures
            r.metric == SizeMetric::Em,
            r.number.number == value * 1000,
    {
        Self::const_from_metric(SizeMetric::Em, value)
    }

    /// A whole number of points.
    pub fn const_pt(value: isize) -> (r: Self)
        requires
            scaled_fits(value as int),
        ensures
            r.metric == SizeMetric::Pt,
            r.number.number == value * 1000,
    {
        Self::const_from_metric(SizeMetric::Pt, value)
    }

    /// A whole number of percent.
    pub fn const_percent(value: isize) -> (r: Self)
        requires
            scaled_fits(value as int),
        ensures
            r.metric == SizeMetric::Percent,
            r.number.number == value * 1000,
    {
        Self::const_from_metric(SizeMetric::Percent, value)
    }

    /// A whole number in the given unit.
    pub fn const_from_metric(metric: SizeMetric, value: isize) -> (r: Self)
        requires
            scaled_fits(value as int),
        ensures
            r.metric == metric,
            r.number.number == value * 1000,
    {
        PixelValue { metric, number: FloatValue::const_new(value) }
    }
}

impl Default for PixelValue {
    fn default() -> (r: Self)
        ensures
            r.metric == SizeMetric::Px,
            r.number.number == 0,
    {
        PixelValue::zero()
    }
}

/// A length that is never a percentage.
#[derive(Debug, Copy, Clone, PartialEq, Eq, Structural, PartialOrd, Ord, Hash)]
pub struct PixelValueNoPercent {
    pub inner: PixelValue,
}

impl Default for PixelValueNoPercent {
    fn default() -> (r: Self)
        ensures
            r.inner.metric == SizeMetric::Px,
            r.inner.number.number == 0,
    {
        PixelValueNoPercent { inner: PixelValue::zero() }
    }
}

/// A pair of lengths such as `5px 10px`, as used for corner radii.
#[derive(Debug, Copy, Clone, PartialEq, Eq, Structural, PartialOrd, Ord, Hash)]
pub struct PixelSize {
    pub width: PixelValue,
    pub height: PixelValue,
}

impl PixelSize {
    pub fn new(width: PixelValue, height: PixelValue) -> (r: Self)
        ensures
            r.width == width,
            r.height == height,
    {
        PixelSize { width, height }
    }

    /// Zero pixels on both axes.
    pub fn zero() -> (r: Self)
        ensures
            r.width.metric == SizeMetric::Px && r.width.number.number == 0,
            r.height.metric == SizeMetric::Px && r.height.number.number == 0,
    {
        Self::new(PixelValue::const_px(0), PixelValue::const_px(0))
    }
}

impl Default for PixelSize {
    fn default() -> (r: Self)
        ensures
            r.width.metric == SizeMetric::Px && r.width.number.number == 0,
            r.height.metric == SizeMetric::Px && r.height.number.number == 0,
    {
        PixelSize::zero()
    }
}

/// Unit of an angle.
#[derive(Debug, Copy, Clone, PartialEq, Eq, Structural, PartialOrd, Ord, Hash)]
pub enum AngleMetric {
    Degree,
    Radians,
    Grad,
    Turn,
    Percent,
}

impl Default for AngleMetric {
    fn default() -> (r: Self)
        ensures
            r == AngleMetric::Degree,
    {
        AngleMetric::Degree
    }
}

/// Suffix with which an angle unit is written.
pub open spec fn angle_metric_suffix(m: AngleMetric) -> Seq<char> {
    match m {
        AngleMetric::Degree => "deg"@,
        AngleMetric::Radians => "rad"@,
        AngleMetric::Grad => "grad"@,
        AngleMetric::Turn => "turn"@,
        AngleMetric::Percent => "%"@,
    }
}

impl AngleMetric {
    /// Suffix with which this unit is written after a number.
    pub fn as_str(&self) -> (r: &'static str)
        ensures
            r@ == angle_metric_suffix(*self),
    {
        match self {
            AngleMetric::Degree => "deg",
            AngleMetric::Radians => "rad",
            AngleMetric::Grad => "grad",
            AngleMetric::Turn => "turn",
            AngleMetric::Percent => "%",
        }
    }
}

/// An angle: a quantized number with its unit.
#[derive(Debug, Copy, Clone, PartialEq, Eq, Structural, PartialOrd, Ord, Hash)]
pub struct AngleValue {
    pub metric: AngleMetric,
    pub number: FloatValue,
}

impl AngleValue {
    /// Zero degrees.
    pub fn zero() -> (r: Self)
        ensures
            r.metric == AngleMetric::Degree,
            r.number.number == 0,
    {
        Self::const_deg(0)
    }

    /// A whole number of degrees.
    pub fn const_deg(value: isize) -> (r: Self)
        requires
            scaled_fits(value as int),
        ensures
            r.metric == AngleMetric::Degree,
            r.number.number == value * 1000,
    {
        Self::const_from_metric(AngleMetric::Degree, value)
    }

    /// A whole number of radians.
    pub fn const_rad(value: isize) -> (r: Self)
        requires
            scaled_fits(value as int),
        ensures
            r.metric == AngleMetric::Radians,
            r.number.number == value * 1000,
    {
        Self::const_from_metric(AngleMetric::Radians, value)
    }

    /// A whole number of grads.
    pub fn const_grad(value: isize) -> (r: Self)
        requires
            scaled_fits(value as int),
        ensures
            r.metric == AngleMetric::Grad,
            r.number.number == value * 1000,
    {
        Self::const_from_metric(AngleMetric::Grad, value)
    }

    /// A whole number of turns.
    pub fn const_turn(value: isize) -> (r: Self)
        requires
            scaled_fits(value as int),
        ensures
            r.metric == AngleMetric::Turn,
            r.number.number == value * 1000,
    {
        Self::const_from_metric(AngleMetric::Turn, value)
    }

    /// A whole number of percent of a full circle.
    pub fn const_percent(value: isize) -> (r: Self)
        requires
            scaled_fits(value as int),
        ensures
            r.metric == AngleMetric::Percent,
            r.number.number == value * 1000,
    {
        Self::const_from_metric(AngleMetric::Percent, value)
    }

    /// A whole number in the given unit.
    pub fn const_from_metric(metric: AngleMetric, value: isize) -> (r: Self)
        requires
            scaled_fits(value as int),
        ensures
            r.metric == metric,
            r.number.number == value * 1000,
    {
        AngleValue { metric, number: FloatValue::const_new(value) }
    }
}

impl Default for AngleValue {
    fn default() -> (r: Self)
        ensures
            r.metric == AngleMetric::Degree,
            r.number.number == 0,
    {
        AngleValue::zero()
    }
}

} // verus!
