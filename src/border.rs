//! Borders and box shadows.

use vstd::prelude::*;
use crate::color::ColorU;
use crate::units::{FloatValue, PixelValue, PixelValueNoPercent};

verus! {

/// Style of a border: solid, double, dashed, ridge and so on.
#[derive(Debug, Copy, Clone, PartialEq, Eq, Structural, PartialOrd, Ord, Hash)]
pub enum BorderStyle {
    NoBorder,
    Solid,
    Double,
    Dotted,
    Dashed,
    Hidden,
    Groove,
    Ridge,
    Inset,
    Outset,
}

/// A border style that draws something.
#[derive(Debug, Copy, Clone, PartialEq, Eq, Structural, PartialOrd, Ord, Hash)]
pub enum BorderStyleNoNone {
    Solid,
    Double,
    Dotted,
    Dashed,
    Hidden,
    Groove,
    Ridge,
    Inset,
    Outset,
}

impl Default for BorderStyle {
    fn default() -> (r: Self)
        ensures
            r == BorderStyle::Solid,
    {
        BorderStyle::Solid
    }
}

/// Keyword with which a border style is written.
pub open spec fn border_style_keyword(s: BorderStyle) -> Seq<char> {
    match s {
        BorderStyle::NoBorder => "none"@,
        BorderStyle::Solid => "solid"@,
        BorderStyle::Double => "double"@,
        BorderStyle::Dotted => "dotted"@,
        BorderStyle::Dashed => "dashed"@,
        BorderStyle::Hidden => "hidden"@,
        BorderStyle::Groove => "groove"@,
        BorderStyle::Ridge => "ridge"@,
        BorderStyle::Inset => "inset"@,
        BorderStyle::Outset => "outset"@,
    }
}

/// The same style, or `None` for a border that draws nothing.
pub open spec fn normalized_border(s: BorderStyle) -> Option<BorderStyleNoNone> {
    match s {
        BorderStyle::NoBorder => None,
        BorderStyle::Solid => Some(BorderStyleNoNone::Solid),
        BorderStyle::Double => Some(BorderStyleNoNone::Double),
        BorderStyle::Dotted => Some(BorderStyleNoNone::Dotted),
        BorderStyle::Dashed => Some(BorderStyleNoNone::Dashed),
        BorderStyle::Hidden => Some(BorderStyleNoNone::Hidden),
        BorderStyle::Groove => Some(BorderStyleNoNone::Groove),
        BorderStyle::Ridge => Some(BorderStyleNoNone::Ridge),
        BorderStyle::Inset => Some(BorderStyleNoNone::Inset),
        BorderStyle::Outset => Some(BorderStyleNoNone::Outset),
    }
}

impl BorderStyle {
    /// `None` for a border that draws nothing, else the same style.
    pub fn normalize_border(self) -> (r: Option<BorderStyleNoNone>)
        ensures
            r == normalized_border(self),
    {
        match self {
            BorderStyle::NoBorder => None,
            BorderStyle::Solid => Some(BorderStyleNoNone::Solid),
            BorderStyle::Double => Some(BorderStyleNoNone::Double),
            BorderStyle::Dotted => Some(BorderStyleNoNone::Dotted),
            BorderStyle::Dashed => Some(BorderStyleNoNone::Dashed),
            BorderStyle::Hidden => Some(BorderStyleNoNone::Hidden),
            BorderStyle::Groove => Some(BorderStyleNoNone::Groove),
            BorderStyle::Ridge => Some(BorderStyleNoNone::Ridge),
            BorderStyle::Inset => Some(BorderStyleNoNone::Inset),
            BorderStyle::Outset => Some(BorderStyleNoNone::Outset),
        }
    }

    /// Keyword with which this style is written.
    pub fn as_str(&self) -> (r: &'static str)
        ensures
            r@ == border_style_keyword(*self),
    {
        match self {
            BorderStyle::NoBorder => "none",
            BorderStyle::Solid => "solid",
            BorderStyle::Double => "double",
            BorderStyle::Dotted => "dotted",
            BorderStyle::Dashed => "dashed",
            BorderStyle::Hidden => "hidden",
            BorderStyle::Groove => "groove",
            BorderStyle::Ridge => "ridge",
            BorderStyle::Inset => "inset",
            BorderStyle::Outset => "outset",
        }
    }
}

/// One side of a plain border.
#[derive(Debug, Copy, Clone, PartialEq, Eq, Structural, PartialOrd, Ord, Hash)]
pub struct BorderSide {
    pub color: ColorU,
    pub style: BorderStyle,
}

/// An image (nine-patch) border; none can be parsed yet, so it has no fields.
#[derive(Debug, Copy, Clone, PartialEq, Eq, Structural, PartialOrd, Ord, Hash)]
pub struct NinePatchBorder {}

/// A plain `border` (no image border).
#[derive(Debug, Copy, Clone, PartialEq, Eq, PartialOrd, Ord, Hash)]
pub struct NormalBorder {
    pub left: BorderSide,
    pub right: BorderSide,
    pub top: BorderSide,
    pub bottom: BorderSide,
    pub radius: Option<
        (
            StyleBorderTopLeftRadius,
            StyleBorderTopRightRadius,
            StyleBorderBottomLeftRadius,
            StyleBorderBottomRightRadius,
        ),
    >,
}

#[derive(Debug, Copy, Clone, PartialEq, Eq, PartialOrd, Ord, Hash)]
pub enum BorderDetails {
    Normal(NormalBorder),
    NinePatch(NinePatchBorder),
}

/// Offsets of the border-width calculations.
#[derive(Debug, Copy, Clone, PartialEq, Eq, Structural, PartialOrd, Ord, Hash)]
pub struct LayoutSideOffsets {
    pub top: FloatValue,
    pub right: FloatValue,
    pub bottom: FloatValue,
    pub left: FloatValue,
}

/// `border-top-left-radius`.
#[derive(Debug, Default, Copy, Clone, PartialEq, Eq, Structural, PartialOrd, Ord, Hash)]
pub struct StyleBorderTopLeftRadius {
    pub inner: PixelValue,
}

/// `border-bottom-left-radius`.
#[derive(Debug, Default, Copy, Clone, PartialEq, Eq, Structural, PartialOrd, Ord, Hash)]
pub struct StyleBorderBottomLeftRadius {
    pub inner: PixelValue,
}

/// `border-top-right-radius`.
#[derive(Debug, Default, Copy, Clone, PartialEq, Eq, Structural, PartialOrd, Ord, Hash)]
pub struct StyleBorderTopRightRadius {
    pub inner: PixelValue,
}

/// `border-bottom-right-radius`.
#[derive(Debug, Default, Copy, Clone, PartialEq, Eq, Structural, PartialOrd, Ord, Hash)]
pub struct StyleBorderBottomRightRadius {
    pub inner: PixelValue,
}

/// `border-top-width`.
#[derive(Debug, Default, Copy, Clone, PartialEq, Eq, Structural, PartialOrd, Ord, Hash)]
pub struct StyleBorderTopWidth {
    pub inner: PixelValue,
}

/// `border-left-width`.
#[derive(Debug, Default, Copy, Clone, PartialEq, Eq, Structural, PartialOrd, Ord, Hash)]
pub struct StyleBorderLeftWidth {
    pub inner: PixelValue,
}

/// `border-right-width`.
#[derive(Debug, Default, Copy, Clone, PartialEq, Eq, Structural, PartialOrd, Ord, Hash)]
pub struct StyleBorderRightWidth {
    pub inner: PixelValue,
}

/// `border-bottom-width`.
#[derive(Debug, Default, Copy, Clone, PartialEq, Eq, Structural, PartialOrd, Ord, Hash)]
pub struct StyleBorderBottomWidth {
    pub inner: PixelValue,
}

/// `border-top-style`.
#[derive(Debug, Default, Copy, Clone, PartialEq, Eq, Structural, PartialOrd, Ord, Hash)]
pub struct StyleBorderTopStyle {
    pub inner: BorderStyle,
}

/// `border-left-style`.
#[derive(Debug, Default, Copy, Clone, PartialEq, Eq, Structural, PartialOrd, Ord, Hash)]
pub struct StyleBorderLeftStyle {
    pub inner: BorderStyle,
}

/// `border-right-style`.
#[derive(Debug, Default, Copy, Clone, PartialEq, Eq, Structural, PartialOrd, Ord, Hash)]
pub struct StyleBorderRightStyle {
    pub inner: BorderStyle,
}

/// `border-bottom-style`.
#[derive(Debug, Default, Copy, Clone, PartialEq, Eq, Structural, PartialOrd, Ord, Hash)]
pub struct StyleBorderBottomStyle {
    pub inner: BorderStyle,
}

/// `border-top-color`.
#[derive(Debug, Default, Copy, Clone, PartialEq, Eq, Structural, PartialOrd, Ord, Hash)]
pub struct StyleBorderTopColor {
    pub inner: ColorU,
}

/// `border-left-color`.
#[derive(Debug, Default, Copy, Clone, PartialEq, Eq, Structural, PartialOrd, Ord, Hash)]
pub struct StyleBorderLeftColor {
    pub inner: ColorU,
}

/// `border-right-color`.
#[derive(Debug, Default, Copy, Clone, PartialEq, Eq, Structural, PartialOrd, Ord, Hash)]
pub struct StyleBorderRightColor {
    pub inner: ColorU,
}

/// `border-bottom-color`.
#[derive(Debug, Default, Copy, Clone, PartialEq, Eq, Structural, PartialOrd, Ord, Hash)]
pub struct StyleBorderBottomColor {
    pub inner: ColorU,
}

/// Width, style and color of one border side.
#[derive(Debug, Copy, Clone, PartialEq, Eq, Structural, PartialOrd, Ord, Hash)]
pub struct StyleBorderSide {
    pub border_width: PixelValue,
    pub border_style: BorderStyle,
    pub border_color: ColorU,
}

/// Whether a `box-shadow` is drawn outside or inside the box.
#[derive(Debug, Copy, Clone, PartialEq, Eq, Structural, PartialOrd, Ord, Hash)]
pub enum BoxShadowClipMode {
    Outset,
    Inset,
}

/// Keyword with which a clip mode is written.
pub open spec fn clip_mode_keyword(m: BoxShadowClipMode) -> Seq<char> {
    match m {
        BoxShadowClipMode::Outset => "outset"@,
        BoxShadowClipMode::Inset => "inset"@,
    }
}

impl BoxShadowClipMode {
    /// Keyword with which this clip mode is written.
    pub fn as_str(&self) -> (r: &'static str)
        ensures
            r@ == clip_mode_keyword(*self),
    {
        match self {
            BoxShadowClipMode::Outset => "outset",
            BoxShadowClipMode::Inset => "inset",
        }
    }
}

/// A `box-shadow`.
#[derive(Debug, Copy, Clone, PartialEq, Eq, PartialOrd, Ord, Hash)]
pub struct StyleBoxShadow {
    pub offset: [PixelValueNoPercent; 2],
    pub color: ColorU,
    pub blur_radius: PixelValueNoPercent,
    pub spread_radius: PixelValueNoPercent,
    pub clip_mode: BoxShadowClipMode,
}

} // verus!
