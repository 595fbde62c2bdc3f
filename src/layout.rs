//! Box-model, positioning and flex layout values.

use vstd::prelude::*;
use crate::units::{FloatValue, PixelValue};

verus! {

/// `width`.
#[derive(Debug, Copy, Clone, PartialEq, Eq, Structural, PartialOrd, Ord, Hash)]
pub struct LayoutWidth {
    pub inner: PixelValue,
}

/// `min-width`.
#[derive(Debug, Copy, Clone, PartialEq, Eq, Structural, PartialOrd, Ord, Hash)]
pub struct LayoutMinWidth {
    pub inner: PixelValue,
}

/// `max-width`.
#[derive(Debug, Copy, Clone, PartialEq, Eq, Structural, PartialOrd, Ord, Hash)]
pub struct LayoutMaxWidth {
    pub inner: PixelValue,
}

/// `height`.
#[derive(Debug, Copy, Clone, PartialEq, Eq, Structural, PartialOrd, Ord, Hash)]
pub struct LayoutHeight {
    pub inner: PixelValue,
}

/// `min-height`.
#[derive(Debug, Copy, Clone, PartialEq, Eq, Structural, PartialOrd, Ord, Hash)]
pub struct LayoutMinHeight {
    pub inner: PixelValue,
}

/// `max-height`.
#[derive(Debug, Copy, Clone, PartialEq, Eq, Structural, PartialOrd, Ord, Hash)]
pub struct LayoutMaxHeight {
    pub inner: PixelValue,
}

/// `top`.
#[derive(Debug, Copy, Clone, PartialEq, Eq, Structural, PartialOrd, Ord, Hash)]
pub struct LayoutTop {
    pub inner: PixelValue,
}

/// `left`.
#[derive(Debug, Copy, Clone, PartialEq, Eq, Structural, PartialOrd, Ord, Hash)]
pub struct LayoutLeft {
    pub inner: PixelValue,
}

/// `right`.
#[derive(Debug, Copy, Clone, PartialEq, Eq, Structural, PartialOrd, Ord, Hash)]
pub struct LayoutRight {
    pub inner: PixelValue,
}

/// `bottom`.
#[derive(Debug, Copy, Clone, PartialEq, Eq, Structural, PartialOrd, Ord, Hash)]
pub struct LayoutBottom {
    pub inner: PixelValue,
}

/// `padding-top`.
#[derive(Debug, Default, Copy, Clone, PartialEq, Eq, Structural, PartialOrd, Ord, Hash)]
pub struct LayoutPaddingTop {
    pub inner: PixelValue,
}

/// `padding-left`.
#[derive(Debug, Default, Copy, Clone, PartialEq, Eq, Structural, PartialOrd, Ord, Hash)]
pub struct LayoutPaddingLeft {
    pub inner: PixelValue,
}

/// `padding-right`.
#[derive(Debug, Default, Copy, Clone, PartialEq, Eq, Structural, PartialOrd, Ord, Hash)]
pub struct LayoutPaddingRight {
    pub inner: PixelValue,
}

/// `padding-bottom`.
#[derive(Debug, Default, Copy, Clone, PartialEq, Eq, Structural, PartialOrd, Ord, Hash)]
pub struct LayoutPaddingBottom {
    pub inner: PixelValue,
}

/// `margin-top`.
#[derive(Debug, Default, Copy, Clone, PartialEq, Eq, Structural, PartialOrd, Ord, Hash)]
pub struct LayoutMarginTop {
    pub inner: PixelValue,
}

/// `margin-left`.
#[derive(Debug, Default, Copy, Clone, PartialEq, Eq, Structural, PartialOrd, Ord, Hash)]
pub struct LayoutMarginLeft {
    pub inner: PixelValue,
}

/// `margin-right`.
#[derive(Debug, Default, Copy, Clone, PartialEq, Eq, Structural, PartialOrd, Ord, Hash)]
pub struct LayoutMarginRight {
    pub inner: PixelValue,
}

/// `margin-bottom`.
#[derive(Debug, Default, Copy, Clone, PartialEq, Eq, Structural, PartialOrd, Ord, Hash)]
pub struct LayoutMarginBottom {
    pub inner: PixelValue,
}

/// `flex-grow`.
#[derive(Debug, Copy, Clone, PartialEq, Eq, Structural, PartialOrd, Ord, Hash)]
pub struct LayoutFlexGrow {
    pub inner: FloatValue,
}

impl Default for LayoutFlexGrow {
    fn default() -> (r: Self)
        ensures
            r.inner.number == 0,
    {
        LayoutFlexGrow { inner: FloatValue::const_new(0) }
    }
}

/// `flex-shrink`.
#[derive(Debug, Copy, Clone, PartialEq, Eq, Structural, PartialOrd, Ord, Hash)]
pub struct LayoutFlexShrink {
    pub inner: FloatValue,
}

impl Default for LayoutFlexShrink {
    fn default() -> (r: Self)
        ensures
            r.inner.number == 0,
    {
        LayoutFlexShrink { inner: FloatValue::const_new(0) }
    }
}

/// `flex-direction`.
#[derive(Debug, Copy, Clone, PartialEq, Eq, Structural, PartialOrd, Ord, Hash)]
pub enum LayoutFlexDirection {
    Row,
    RowReverse,
    Column,
    ColumnReverse,
}

impl Default for LayoutFlexDirection {
    fn default() -> (r: Self)
        ensures
            r == LayoutFlexDirection::Row,
    {
        LayoutFlexDirection::Row
    }
}

/// Main axis of a flex direction, without the `-reverse` distinction.
#[derive(Debug, Copy, Clone, PartialEq, Eq, Structural, PartialOrd, Ord, Hash)]
pub enum LayoutAxis {
    Horizontal,
    Vertical,
}

impl LayoutFlexDirection {
    /// `Horizontal` for the row directions, `Vertical` for the column directions.
    pub fn get_axis(&self) -> (r: LayoutAxis)
        ensures
            r == (if *self == LayoutFlexDirection::Row || *self == LayoutFlexDirection::RowReverse {
                LayoutAxis::Horizontal
            } else {
                LayoutAxis::Vertical
            }),
    {
        match self {
            LayoutFlexDirection::Row | LayoutFlexDirection::RowReverse => LayoutAxis::Horizontal,
            LayoutFlexDirection::Column | LayoutFlexDirection::ColumnReverse => LayoutAxis::Vertical,
        }
    }

    /// Whether this is `row-reverse` or `column-reverse`.
    pub fn is_reverse(&self) -> (r: bool)
        ensures
            r == (*self == LayoutFlexDirection::RowReverse || *self
                == LayoutFlexDirection::ColumnReverse),
    {
        *self == LayoutFlexDirection::RowReverse || *self == LayoutFlexDirection::ColumnReverse
    }
}

/// `box-sizing`.
#[derive(Debug, Copy, Clone, PartialEq, Eq, Structural, PartialOrd, Ord, Hash)]
pub enum LayoutBoxSizing {
    ContentBox,
    BorderBox,
}

impl Default for LayoutBoxSizing {
    fn default() -> (r: Self)
        ensures
            r == LayoutBoxSizing::ContentBox,
    {
        LayoutBoxSizing::ContentBox
    }
}

/// `display`.
#[derive(Debug, Copy, Clone, PartialEq, Eq, Structural, PartialOrd, Ord, Hash)]
pub enum LayoutDisplay {
    Flex,
    Block,
    InlineBlock,
}

impl Default for LayoutDisplay {
    fn default() -> (r: Self)
        ensures
            r == LayoutDisplay::Block,
    {
        LayoutDisplay::Block
    }
}

/// `float`.
#[derive(Debug, Copy, Clone, PartialEq, Eq, Structural, PartialOrd, Ord, Hash)]
pub enum LayoutFloat {
    Left,
    Right,
}

impl Default for LayoutFloat {
    fn default() -> (r: Self)
        ensures
            r == LayoutFloat::Left,
    {
        LayoutFloat::Left
    }
}

/// `position`.
#[derive(Debug, Copy, Clone, PartialEq, Eq, Structural, PartialOrd, Ord, Hash)]
pub enum LayoutPosition {
    Static,
    Relative,
    Absolute,
    Fixed,
}

impl Default for LayoutPosition {
    fn default() -> (r: Self)
        ensures
            r == LayoutPosition::Static,
    {
        LayoutPosition::Static
    }
}

/// `flex-wrap`.
#[derive(Debug, Copy, Clone, PartialEq, Eq, Structural, PartialOrd, Ord, Hash)]
pub enum LayoutWrap {
    Wrap,
    NoWrap,
}

impl Default for LayoutWrap {
    fn default() -> (r: Self)
        ensures
            r == LayoutWrap::Wrap,
    {
        LayoutWrap::Wrap
    }
}

/// `justify-content`.
#[derive(Debug, Copy, Clone, PartialEq, Eq, Structural, PartialOrd, Ord, Hash)]
pub enum LayoutJustifyContent {
    Start,
    End,
    Center,
    SpaceBetween,
    SpaceAround,
    SpaceEvenly,
}

impl Default for LayoutJustifyContent {
    fn default() -> (r: Self)
        ensures
            r == LayoutJustifyContent::Start,
    {
        LayoutJustifyContent::Start
    }
}

/// `align-items`.
#[derive(Debug, Copy, Clone, PartialEq, Eq, Structural, PartialOrd, Ord, Hash)]
pub enum LayoutAlignItems {
    Stretch,
    Center,
    FlexStart,
    FlexEnd,
}

impl Default for LayoutAlignItems {
    fn default() -> (r: Self)
        ensures
            r == LayoutAlignItems::FlexStart,
    {
        LayoutAlignItems::FlexStart
    }
}

/// `align-content`.
#[derive(Debug, Copy, Clone, PartialEq, Eq, Structural, PartialOrd, Ord, Hash)]
pub enum LayoutAlignContent {
    Stretch,
    Center,
    Start,
    End,
    SpaceBetween,
    SpaceAround,
}

impl Default for LayoutAlignContent {
    fn default() -> (r: Self)
        ensures
            r == LayoutAlignContent::Stretch,
    {
        LayoutAlignContent::Stretch
    }
}

/// `overflow-x` / `overflow-y`.
#[derive(Debug, Copy, Clone, PartialEq, Eq, Structural, PartialOrd, Ord, Hash)]
pub enum Overflow {
    Scroll,
    Auto,
    Hidden,
    Visible,
}

impl Default for Overflow {
    fn default() -> (r: Self)
        ensures
            r == Overflow::Auto,
    {
        Overflow::Auto
    }
}

impl Overflow {
    /// Whether scrollbars are shown: always for `scroll`, for `auto` only
    /// while the content overflows, never for `hidden` and `visible`.
    pub fn needs_scrollbar(&self, currently_overflowing: bool) -> (r: bool)
        ensures
            r == (*self == Overflow::Scroll || (*self == Overflow::Auto && currently_overflowing)),
    {
        match self {
            Overflow::Scroll => true,
            Overflow::Auto => currently_overflowing,
            Overflow::Hidden | Overflow::Visible => false,
        }
    }

    /// Whether this is `overflow: visible`, the one value that does not clip children.
    pub fn is_overflow_visible(&self) -> (r: bool)
        ensures
            r == (*self == Overflow::Visible),
    {
        *self == Overflow::Visible
    }
}

} // verus!
