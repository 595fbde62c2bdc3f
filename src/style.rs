//! Text, cursor, opacity, transform and scrollbar style values.

use vstd::prelude::*;
use crate::background::StyleBackgroundContent;
use crate::color::ColorU;
use crate::layout::{LayoutPaddingLeft, LayoutPaddingRight, LayoutWidth};
use crate::units::{AngleValue, FloatValue, PercentageValue, PixelValue};

verus! {

/// `color`.
#[derive(Debug, Copy, Clone, PartialEq, Eq, Structural, PartialOrd, Ord, Hash)]
pub struct StyleTextColor {
    pub inner: ColorU,
}

/// `font-size`.
#[derive(Debug, Copy, Clone, PartialEq, Eq, Structural, PartialOrd, Ord, Hash)]
pub struct StyleFontSize {
    pub inner: PixelValue,
}

/// `font-family`: font names in order of precedence.
#[derive(Debug, Clone, PartialEq, Eq, PartialOrd, Ord, Hash)]
pub struct StyleFontFamily {
    pub fonts: Vec<String>,
}

/// `line-height`.
#[derive(Debug, Copy, Clone, PartialEq, Eq, Structural, PartialOrd, Ord, Hash)]
pub struct StyleLineHeight {
    pub inner: PercentageValue,
}

/// `tab-width`.
#[derive(Debug, Copy, Clone, PartialEq, Eq, Structural, PartialOrd, Ord, Hash)]
pub struct StyleTabWidth {
    pub inner: PercentageValue,
}

/// `letter-spacing`.
#[derive(Debug, Copy, Clone, PartialEq, Eq, Structural, PartialOrd, Ord, Hash)]
pub struct StyleLetterSpacing {
    pub inner: PixelValue,
}

/// `word-spacing`.
#[derive(Debug, Copy, Clone, PartialEq, Eq, Structural, PartialOrd, Ord, Hash)]
pub struct StyleWordSpacing {
    pub inner: PixelValue,
}

/// Horizontal text alignment (`text-align`).
#[derive(Debug, Copy, Clone, PartialEq, Eq, Structural, PartialOrd, Ord, Hash)]
pub enum StyleTextAlignmentHorz {
    Left,
    Center,
    Right,
}

impl Default for StyleTextAlignmentHorz {
    fn default() -> (r: Self)
        ensures
            r == StyleTextAlignmentHorz::Left,
    {
        StyleTextAlignmentHorz::Left
    }
}

/// Vertical text alignment.
#[derive(Debug, Copy, Clone, PartialEq, Eq, Structural, PartialOrd, Ord, Hash)]
pub enum StyleTextAlignmentVert {
    Top,
    Center,
    Bottom,
}

impl Default for StyleTextAlignmentVert {
    fn default() -> (r: Self)
        ensures
            r == StyleTextAlignmentVert::Top,
    {
        StyleTextAlignmentVert::Top
    }
}

/// `cursor`.
#[derive(Debug, Copy, Clone, PartialEq, Eq, Structural, PartialOrd, Ord, Hash)]
pub enum StyleCursor {
    Alias,
    AllScroll,
    Cell,
    ColResize,
    ContextMenu,
    Copy,
    Crosshair,
    Default,
    EResize,
    EwResize,
    Grab,
    Grabbing,
    Help,
    Move,
    NResize,
    NsResize,
    NeswResize,
    NwseResize,
    Pointer,
    Progress,
    RowResize,
    SResize,
    SeResize,
    Text,
    Unset,
    VerticalText,
    WResize,
    Wait,
    ZoomIn,
    ZoomOut,
}

impl Default for StyleCursor {
    fn default() -> (r: Self)
        ensures
            r == StyleCursor::Default,
    {
        StyleCursor::Default
    }
}

/// `opacity`.
#[derive(Debug, Copy, Clone, PartialEq, Eq, Structural, PartialOrd, Ord, Hash)]
pub struct StyleOpacity {
    pub inner: FloatValue,
}

impl Default for StyleOpacity {
    fn default() -> (r: Self)
        ensures
            r.inner.number == 0,
    {
        StyleOpacity { inner: FloatValue::const_new(0) }
    }
}

/// `perspective-origin`.
#[derive(Debug, Copy, Clone, PartialEq, Eq, Structural, PartialOrd, Ord, Hash)]
pub struct StylePerspectiveOrigin {
    pub x: PixelValue,
    pub y: PixelValue,
}

impl Default for StylePerspectiveOrigin {
    fn default() -> (r: Self)
        ensures
            r.x == PixelValue::spec_zero(),
            r.y == PixelValue::spec_zero(),
    {
        StylePerspectiveOrigin { x: PixelValue::const_px(0), y: PixelValue::const_px(0) }
    }
}

/// `transform-origin`.
#[derive(Debug, Copy, Clone, PartialEq, Eq, Structural, PartialOrd, Ord, Hash)]
pub struct StyleTransformOrigin {
    pub x: PixelValue,
    pub y: PixelValue,
}

impl Default for StyleTransformOrigin {
    fn default() -> (r: Self)
        ensures
            r.x == PixelValue::spec_zero(),
            r.y == PixelValue::spec_zero(),
    {
        StyleTransformOrigin { x: PixelValue::const_px(0), y: PixelValue::const_px(0) }
    }
}

/// `backface-visibility`.
#[derive(Debug, Copy, Clone, PartialEq, Eq, Structural, PartialOrd, Ord, Hash)]
pub enum StyleBackfaceVisibility {
    Hidden,
    Visible,
}

impl Default for StyleBackfaceVisibility {
    fn default() -> (r: Self)
        ensures
            r == StyleBackfaceVisibility::Visible,
    {
        StyleBackfaceVisibility::Visible
    }
}

/// One function of a `transform` list.
#[derive(Debug, Copy, Clone, PartialEq, Eq, Structural, PartialOrd, Ord, Hash)]
pub enum StyleTransform {
    Matrix(StyleTransformMatrix2D),
    Matrix3D(StyleTransformMatrix3D),
    Translate(StyleTransformTranslate2D),
    Translate3D(StyleTransformTranslate3D),
    TranslateX(PixelValue),
    TranslateY(PixelValue),
    TranslateZ(PixelValue),
    Rotate(AngleValue),
    Rotate3D(StyleTransformRotate3D),
    RotateX(AngleValue),
    RotateY(AngleValue),
    RotateZ(AngleValue),
    Scale(StyleTransformScale2D),
    Scale3D(StyleTransformScale3D),
    ScaleX(PercentageValue),
    ScaleY(PercentageValue),
    ScaleZ(PercentageValue),
    Skew(StyleTransformSkew2D),
    SkewX(PercentageValue),
    SkewY(PercentageValue),
    Perspective(PixelValue),
}

pub type StyleTransformVec = Vec<StyleTransform>;

#[derive(Debug, Copy, Clone, PartialEq, Eq, Structural, PartialOrd, Ord, Hash)]
pub struct StyleTransformMatrix2D {
    pub a: PixelValue,
    pub b: PixelValue,
    pub c: PixelValue,
    pub d: PixelValue,
    pub tx: PixelValue,
    pub ty: PixelValue,
}

#[derive(Debug, Copy, Clone, PartialEq, Eq, Structural, PartialOrd, Ord, Hash)]
pub struct StyleTransformMatrix3D {
    pub m11: PixelValue,
    pub m12: PixelValue,
    pub m13: PixelValue,
    pub m14: PixelValue,
    pub m21: PixelValue,
    pub m22: PixelValue,
    pub m23: PixelValue,
    pub m24: PixelValue,
    pub m31: PixelValue,
    pub m32: PixelValue,
    pub m33: PixelValue,
    pub m34: PixelValue,
    pub m41: PixelValue,
    pub m42: PixelValue,
    pub m43: PixelValue,
    pub m44: PixelValue,
}

#[derive(Debug, Copy, Clone, PartialEq, Eq, Structural, PartialOrd, Ord, Hash)]
pub struct StyleTransformTranslate2D {
    pub x: PixelValue,
    pub y: PixelValue,
}

#[derive(Debug, Copy, Clone, PartialEq, Eq, Structural, PartialOrd, Ord, Hash)]
pub struct StyleTransformTranslate3D {
    pub x: PixelValue,
    pub y: PixelValue,
    pub z: PixelValue,
}

#[derive(Debug, Copy, Clone, PartialEq, Eq, Structural, PartialOrd, Ord, Hash)]
pub struct StyleTransformRotate3D {
    pub x: PercentageValue,
    pub y: PercentageValue,
    pub z: PercentageValue,
    pub angle: AngleValue,
}

#[derive(Debug, Copy, Clone, PartialEq, Eq, Structural, PartialOrd, Ord, Hash)]
pub struct StyleTransformScale2D {
    pub x: PercentageValue,
    pub y: PercentageValue,
}

#[derive(Debug, Copy, Clone, PartialEq, Eq, Structural, PartialOrd, Ord, Hash)]
pub struct StyleTransformScale3D {
    pub x: PercentageValue,
    pub y: PercentageValue,
    pub z: PercentageValue,
}

#[derive(Debug, Copy, Clone, PartialEq, Eq, Structural, PartialOrd, Ord, Hash)]
pub struct StyleTransformSkew2D {
    pub x: PercentageValue,
    pub y: PercentageValue,
}

/// Layout and style of a scrollbar.
#[derive(Debug, Clone, PartialEq, Eq, PartialOrd, Ord, Hash)]
pub struct ScrollbarInfo {
    /// Total width (or height, for a horizontal scrollbar) of the scrollbar.
    pub width: LayoutWidth,
    /// Padding of the track; the inner bar is `width - padding` wide.
    pub padding_left: LayoutPaddingLeft,
    pub padding_right: LayoutPaddingRight,
    /// Background of the track.
    pub track: StyleBackgroundContent,
    /// Background of the thumb.
    pub thumb: StyleBackgroundContent,
    /// Background of the direction buttons.
    pub button: StyleBackgroundContent,
    /// Background of the corner where two scrollbars meet.
    pub corner: StyleBackgroundContent,
    /// Background of the resizing handle above the corner.
    pub resizer: StyleBackgroundContent,
}

/// A gray layer with all three channels at `v`, opaque.
pub open spec fn opaque_gray_layer(v: u8) -> StyleBackgroundContent {
    StyleBackgroundContent::Color(ColorU { r: v, g: v, b: v, a: 255 })
}

impl Default for ScrollbarInfo {
    /// A 17px wide bar with 2px padding on light gray tracks.
    fn default() -> (r: Self)
        ensures
            r.width.inner == PixelValue::spec_px(17),
            r.padding_left.inner == PixelValue::spec_px(2),
            r.padding_right.inner == PixelValue::spec_px(2),
            r.track == opaque_gray_layer(241),
            r.thumb == opaque_gray_layer(193),
            r.button == opaque_gray_layer(163),
            r.corner == StyleBackgroundContent::Color(ColorU { r: 0, g: 0, b: 0, a: 0 }),
            r.resizer == StyleBackgroundContent::Color(ColorU { r: 0, g: 0, b: 0, a: 0 }),
    {
        ScrollbarInfo {
            width: LayoutWidth { inner: PixelValue::const_px(17) },
            padding_left: LayoutPaddingLeft { inner: PixelValue::const_px(2) },
            padding_right: LayoutPaddingRight { inner: PixelValue::const_px(2) },
            track: StyleBackgroundContent::Color(ColorU { r: 241, g: 241, b: 241, a: 255 }),
            thumb: StyleBackgroundContent::Color(ColorU { r: 193, g: 193, b: 193, a: 255 }),
            button: StyleBackgroundContent::Color(ColorU { r: 163, g: 163, b: 163, a: 255 }),
            corner: StyleBackgroundContent::default(),
            resizer: StyleBackgroundContent::default(),
        }
    }
}

/// Styles of the two scrollbars, where present.
#[derive(Debug, Clone, PartialEq, Eq, PartialOrd, Ord, Hash)]
pub struct ScrollbarStyle {
    pub horizontal: Option<ScrollbarInfo>,
    pub vertical: Option<ScrollbarInfo>,
}

} // verus!
