//! Cascaded values: a property value or one of the cascade keywords, and
//! the tagged union binding every property kind to its value type.

use vstd::prelude::*;
use crate::background::{
    StyleBackgroundContentVec, StyleBackgroundPositionVec, StyleBackgroundRepeatVec,
    StyleBackgroundSizeVec,
};
use crate::border::{
    StyleBorderBottomColor, StyleBorderBottomLeftRadius, StyleBorderBottomRightRadius,
    StyleBorderBottomStyle, StyleBorderBottomWidth, StyleBorderLeftColor, StyleBorderLeftStyle,
    StyleBorderLeftWidth, StyleBorderRightColor, StyleBorderRightStyle, StyleBorderRightWidth,
    StyleBorderTopColor, StyleBorderTopLeftRadius, StyleBorderTopRightRadius, StyleBorderTopStyle,
    StyleBorderTopWidth, StyleBoxShadow,
};
use crate::layout::{
    LayoutAlignContent, LayoutAlignItems, LayoutBottom, LayoutBoxSizing, LayoutDisplay,
    LayoutFlexDirection, LayoutFlexGrow, LayoutFlexShrink, LayoutFloat, LayoutHeight,
    LayoutJustifyContent, LayoutLeft, LayoutMarginBottom, LayoutMarginLeft, LayoutMarginRight,
    LayoutMarginTop, LayoutMaxHeight, LayoutMaxWidth, LayoutMinHeight, LayoutMinWidth,
    LayoutPaddingBottom, LayoutPaddingLeft, LayoutPaddingRight, LayoutPaddingTop, LayoutPosition,
    LayoutRight, LayoutTop, LayoutWidth, LayoutWrap, Overflow,
};
use crate::property::CssPropertyType;
use crate::style::{
    ScrollbarStyle, StyleBackfaceVisibility, StyleCursor, StyleFontFamily, StyleFontSize,
    StyleLetterSpacing, StyleLineHeight, StyleOpacity, StylePerspectiveOrigin, StyleTabWidth,
    StyleTextAlignmentHorz, StyleTextColor, StyleTransformOrigin, StyleTransformVec,
    StyleWordSpacing,
};

verus! {

/// A declared value: one of the cascade keywords, or an exact value.
#[derive(Debug, Copy, Clone, PartialEq, Eq, PartialOrd, Ord, Hash)]
pub enum CssPropertyValue<T> {
    Auto,
    /// The `none` keyword.
    NoneValue,
    Initial,
    Inherit,
    Exact(T),
}

/// The cascade keywords: every declared value that is not exact.
#[derive(Debug, Copy, Clone, PartialEq, Eq, Structural, PartialOrd, Ord, Hash)]
pub enum CssKeyword {
    Auto,
    NoneValue,
    Initial,
    Inherit,
}

/// The declared value that is the keyword `k`.
pub open spec fn keyword_value<T>(k: CssKeyword) -> CssPropertyValue<T> {
    match k {
        CssKeyword::Auto => CssPropertyValue::Auto,
        CssKeyword::NoneValue => CssPropertyValue::NoneValue,
        CssKeyword::Initial => CssPropertyValue::Initial,
        CssKeyword::Inherit => CssPropertyValue::Inherit,
    }
}

/// One declaration: a property kind with its declared value.
#[derive(Debug, Clone, PartialEq, Eq, PartialOrd, Ord, Hash)]
pub enum CssProperty {
    TextColor(CssPropertyValue<StyleTextColor>),
    FontSize(CssPropertyValue<StyleFontSize>),
    FontFamily(CssPropertyValue<StyleFontFamily>),
    TextAlign(CssPropertyValue<StyleTextAlignmentHorz>),
    LetterSpacing(CssPropertyValue<StyleLetterSpacing>),
    LineHeight(CssPropertyValue<StyleLineHeight>),
    WordSpacing(CssPropertyValue<StyleWordSpacing>),
    TabWidth(CssPropertyValue<StyleTabWidth>),
    Cursor(CssPropertyValue<StyleCursor>),
    Display(CssPropertyValue<LayoutDisplay>),
    Float(CssPropertyValue<LayoutFloat>),
    BoxSizing(CssPropertyValue<LayoutBoxSizing>),
    Width(CssPropertyValue<LayoutWidth>),
    Height(CssPropertyValue<LayoutHeight>),
    MinWidth(CssPropertyValue<LayoutMinWidth>),
    MinHeight(CssPropertyValue<LayoutMinHeight>),
    MaxWidth(CssPropertyValue<LayoutMaxWidth>),
    MaxHeight(CssPropertyValue<LayoutMaxHeight>),
    Position(CssPropertyValue<LayoutPosition>),
    Top(CssPropertyValue<LayoutTop>),
    Right(CssPropertyValue<LayoutRight>),
    Left(CssPropertyValue<LayoutLeft>),
    Bottom(CssPropertyValue<LayoutBottom>),
    FlexWrap(CssPropertyValue<LayoutWrap>),
    FlexDirection(CssPropertyValue<LayoutFlexDirection>),
    FlexGrow(CssPropertyValue<LayoutFlexGrow>),
    FlexShrink(CssPropertyValue<LayoutFlexShrink>),
    JustifyContent(CssPropertyValue<LayoutJustifyContent>),
    AlignItems(CssPropertyValue<LayoutAlignItems>),
    AlignContent(CssPropertyValue<LayoutAlignContent>),
    BackgroundContent(CssPropertyValue<StyleBackgroundContentVec>),
    BackgroundPosition(CssPropertyValue<StyleBackgroundPositionVec>),
    BackgroundSize(CssPropertyValue<StyleBackgroundSizeVec>),
    BackgroundRepeat(CssPropertyValue<StyleBackgroundRepeatVec>),
    OverflowX(CssPropertyValue<Overflow>),
    OverflowY(CssPropertyValue<Overflow>),
    PaddingTop(CssPropertyValue<LayoutPaddingTop>),
    PaddingLeft(CssPropertyValue<LayoutPaddingLeft>),
    PaddingRight(CssPropertyValue<LayoutPaddingRight>),
    PaddingBottom(CssPropertyValue<LayoutPaddingBottom>),
    MarginTop(CssPropertyValue<LayoutMarginTop>),
    MarginLeft(CssPropertyValue<LayoutMarginLeft>),
    MarginRight(CssPropertyValue<LayoutMarginRight>),
    MarginBottom(CssPropertyValue<LayoutMarginBottom>),
    BorderTopLeftRadius(CssPropertyValue<StyleBorderTopLeftRadius>),
    BorderTopRightRadius(CssPropertyValue<StyleBorderTopRightRadius>),
    BorderBottomLeftRadius(CssPropertyValue<StyleBorderBottomLeftRadius>),
    BorderBottomRightRadius(CssPropertyValue<StyleBorderBottomRightRadius>),
    BorderTopColor(CssPropertyValue<StyleBorderTopColor>),
    BorderRightColor(CssPropertyValue<StyleBorderRightColor>),
    BorderLeftColor(CssPropertyValue<StyleBorderLeftColor>),
    BorderBottomColor(CssPropertyValue<StyleBorderBottomColor>),
    BorderTopStyle(CssPropertyValue<StyleBorderTopStyle>),
    BorderRightStyle(CssPropertyValue<StyleBorderRightStyle>),
    BorderLeftStyle(CssPropertyValue<StyleBorderLeftStyle>),
    BorderBottomStyle(CssPropertyValue<StyleBorderBottomStyle>),
    BorderTopWidth(CssPropertyValue<StyleBorderTopWidth>),
    BorderRightWidth(CssPropertyValue<StyleBorderRightWidth>),
    BorderLeftWidth(CssPropertyValue<StyleBorderLeftWidth>),
    BorderBottomWidth(CssPropertyValue<StyleBorderBottomWidth>),
    BoxShadowLeft(CssPropertyValue<StyleBoxShadow>),
    BoxShadowRight(CssPropertyValue<StyleBoxShadow>),
    BoxShadowTop(CssPropertyValue<StyleBoxShadow>),
    BoxShadowBottom(CssPropertyValue<StyleBoxShadow>),
    ScrollbarStyle(CssPropertyValue<ScrollbarStyle>),
    Opacity(CssPropertyValue<StyleOpacity>),
    Transform(CssPropertyValue<StyleTransformVec>),
    TransformOrigin(CssPropertyValue<StyleTransformOrigin>),
    PerspectiveOrigin(CssPropertyValue<StylePerspectiveOrigin>),
    BackfaceVisibility(CssPropertyValue<StyleBackfaceVisibility>),
}

pub type CssPropertyVec = Vec<CssProperty>;

/// The property of kind `t` whose value is the keyword `k`. The `background`,
/// `background-image` and `background-color` kinds all land in the
/// background layer variant.
pub open spec fn keyword_property(t: CssPropertyType, k: CssKeyword) -> CssProperty {
    match t {
        CssPropertyType::TextColor => CssProperty::TextColor(keyword_value(k)),
        CssPropertyType::FontSize => CssProperty::FontSize(keyword_value(k)),
        CssPropertyType::FontFamily => CssProperty::FontFamily(keyword_value(k)),
        CssPropertyType::TextAlign => CssProperty::TextAlign(keyword_value(k)),
        CssPropertyType::LetterSpacing => CssProperty::LetterSpacing(keyword_value(k)),
        CssPropertyType::LineHeight => CssProperty::LineHeight(keyword_value(k)),
        CssPropertyType::WordSpacing => CssProperty::WordSpacing(keyword_value(k)),
        CssPropertyType::TabWidth => CssProperty::TabWidth(keyword_value(k)),
        CssPropertyType::Cursor => CssProperty::Cursor(keyword_value(k)),
        CssPropertyType::Display => CssProperty::Display(keyword_value(k)),
        CssPropertyType::Float => CssProperty::Float(keyword_value(k)),
        CssPropertyType::BoxSizing => CssProperty::BoxSizing(keyword_value(k)),
        CssPropertyType::Width => CssProperty::Width(keyword_value(k)),
        CssPropertyType::Height => CssProperty::Height(keyword_value(k)),
        CssPropertyType::MinWidth => CssProperty::MinWidth(keyword_value(k)),
        CssPropertyType::MinHeight => CssProperty::MinHeight(keyword_value(k)),
        CssPropertyType::MaxWidth => CssProperty::MaxWidth(keyword_value(k)),
        CssPropertyType::MaxHeight => CssProperty::MaxHeight(keyword_value(k)),
        CssPropertyType::Position => CssProperty::Position(keyword_value(k)),
        CssPropertyType::Top => CssProperty::Top(keyword_value(k)),
        CssPropertyType::Right => CssProperty::Right(keyword_value(k)),
        CssPropertyType::Left => CssProperty::Left(keyword_value(k)),
        CssPropertyType::Bottom => CssProperty::Bottom(keyword_value(k)),
        CssPropertyType::FlexWrap => CssProperty::FlexWrap(keyword_value(k)),
        CssPropertyType::FlexDirection => CssProperty::FlexDirection(keyword_value(k)),
        CssPropertyType::FlexGrow => CssProperty::FlexGrow(keyword_value(k)),
        CssPropertyType::FlexShrink => CssProperty::FlexShrink(keyword_value(k)),
        CssPropertyType::JustifyContent => CssProperty::JustifyContent(keyword_value(k)),
        CssPropertyType::AlignItems => CssProperty::AlignItems(keyword_value(k)),
        CssPropertyType::AlignContent => CssProperty::AlignContent(keyword_value(k)),
        CssPropertyType::OverflowX => CssProperty::OverflowX(keyword_value(k)),
        CssPropertyType::OverflowY => CssProperty::OverflowY(keyword_value(k)),
        CssPropertyType::PaddingTop => CssProperty::PaddingTop(keyword_value(k)),
        CssPropertyType::PaddingLeft => CssProperty::PaddingLeft(keyword_value(k)),
        CssPropertyType::PaddingRight => CssProperty::PaddingRight(keyword_value(k)),
        CssPropertyType::PaddingBottom => CssProperty::PaddingBottom(keyword_value(k)),
        CssPropertyType::MarginTop => CssProperty::MarginTop(keyword_value(k)),
        CssPropertyType::MarginLeft => CssProperty::MarginLeft(keyword_value(k)),
        CssPropertyType::MarginRight => CssProperty::MarginRight(keyword_value(k)),
        CssPropertyType::MarginBottom => CssProperty::MarginBottom(keyword_value(k)),
        CssPropertyType::Background => CssProperty::BackgroundContent(keyword_value(k)),
        CssPropertyType::BackgroundImage => CssProperty::BackgroundContent(keyword_value(k)),
        CssPropertyType::BackgroundColor => CssProperty::BackgroundContent(keyword_value(k)),
        CssPropertyType::BackgroundPosition => CssProperty::BackgroundPosition(keyword_value(k)),
        CssPropertyType::BackgroundSize => CssProperty::BackgroundSize(keyword_value(k)),
        CssPropertyType::BackgroundRepeat => CssProperty::BackgroundRepeat(keyword_value(k)),
        CssPropertyType::BorderTopLeftRadius => CssProperty::BorderTopLeftRadius(keyword_value(k)),
        CssPropertyType::BorderTopRightRadius => CssProperty::BorderTopRightRadius(keyword_value(k)),
        CssPropertyType::BorderBottomLeftRadius => CssProperty::BorderBottomLeftRadius(keyword_value(k)),
        CssPropertyType::BorderBottomRightRadius => CssProperty::BorderBottomRightRadius(keyword_value(k)),
        CssPropertyType::BorderTopColor => CssProperty::BorderTopColor(keyword_value(k)),
        CssPropertyType::BorderRightColor => CssProperty::BorderRightColor(keyword_value(k)),
        CssPropertyType::BorderLeftColor => CssProperty::BorderLeftColor(keyword_value(k)),
        CssPropertyType::BorderBottomColor => CssProperty::BorderBottomColor(keyword_value(k)),
        CssPropertyType::BorderTopStyle => CssProperty::BorderTopStyle(keyword_value(k)),
        CssPropertyType::BorderRightStyle => CssProperty::BorderRightStyle(keyword_value(k)),
        CssPropertyType::BorderLeftStyle => CssProperty::BorderLeftStyle(keyword_value(k)),
        CssPropertyType::BorderBottomStyle => CssProperty::BorderBottomStyle(keyword_value(k)),
        CssPropertyType::BorderTopWidth => CssProperty::BorderTopWidth(keyword_value(k)),
        CssPropertyType::BorderRightWidth => CssProperty::BorderRightWidth(keyword_value(k)),
        CssPropertyType::BorderLeftWidth => CssProperty::BorderLeftWidth(keyword_value(k)),
        CssPropertyType::BorderBottomWidth => CssProperty::BorderBottomWidth(keyword_value(k)),
        CssPropertyType::BoxShadowLeft => CssProperty::BoxShadowLeft(keyword_value(k)),
        CssPropertyType::BoxShadowRight => CssProperty::BoxShadowRight(keyword_value(k)),
        CssPropertyType::BoxShadowTop => CssProperty::BoxShadowTop(keyword_value(k)),
        CssPropertyType::BoxShadowBottom => CssProperty::BoxShadowBottom(keyword_value(k)),
        CssPropertyType::ScrollbarStyle => CssProperty::ScrollbarStyle(keyword_value(k)),
        CssPropertyType::Opacity => CssProperty::Opacity(keyword_value(k)),
        CssPropertyType::Transform => CssProperty::Transform(keyword_value(k)),
        CssPropertyType::PerspectiveOrigin => CssProperty::PerspectiveOrigin(keyword_value(k)),
        CssPropertyType::TransformOrigin => CssProperty::TransformOrigin(keyword_value(k)),
        CssPropertyType::BackfaceVisibility => CssProperty::BackfaceVisibility(keyword_value(k)),
    }
}

/// The kind a property reports for the kind `t` it was built from: `t`
/// itself, but `BackgroundImage` for all three kinds of the background layer.
pub open spec fn reported_type(t: CssPropertyType) -> CssPropertyType {
    if t == CssPropertyType::Background || t == CssPropertyType::BackgroundColor {
        CssPropertyType::BackgroundImage
    } else {
        t
    }
}

impl CssProperty {
    /// The kind of the active variant.
    pub open spec fn spec_type(self) -> CssPropertyType {
        match self {
            CssProperty::TextColor(_) => CssPropertyType::TextColor,
            CssProperty::FontSize(_) => CssPropertyType::FontSize,
            CssProperty::FontFamily(_) => CssPropertyType::FontFamily,
            CssProperty::TextAlign(_) => CssPropertyType::TextAlign,
            CssProperty::LetterSpacing(_) => CssPropertyType::LetterSpacing,
            CssProperty::LineHeight(_) => CssPropertyType::LineHeight,
            CssProperty::WordSpacing(_) => CssPropertyType::WordSpacing,
            CssProperty::TabWidth(_) => CssPropertyType::TabWidth,
            CssProperty::Cursor(_) => CssPropertyType::Cursor,
            CssProperty::Display(_) => CssPropertyType::Display,
            CssProperty::Float(_) => CssPropertyType::Float,
            CssProperty::BoxSizing(_) => CssPropertyType::BoxSizing,
            CssProperty::Width(_) => CssPropertyType::Width,
            CssProperty::Height(_) => CssPropertyType::Height,
            CssProperty::MinWidth(_) => CssPropertyType::MinWidth,
            CssProperty::MinHeight(_) => CssPropertyType::MinHeight,
            CssProperty::MaxWidth(_) => CssPropertyType::MaxWidth,
            CssProperty::MaxHeight(_) => CssPropertyType::MaxHeight,
            CssProperty::Position(_) => CssPropertyType::Position,
            CssProperty::Top(_) => CssPropertyType::Top,
            CssProperty::Right(_) => CssPropertyType::Right,
            CssProperty::Left(_) => CssPropertyType::Left,
            CssProperty::Bottom(_) => CssPropertyType::Bottom,
            CssProperty::FlexWrap(_) => CssPropertyType::FlexWrap,
            CssProperty::FlexDirection(_) => CssPropertyType::FlexDirection,
            CssProperty::FlexGrow(_) => CssPropertyType::FlexGrow,
            CssProperty::FlexShrink(_) => CssPropertyType::FlexShrink,
            CssProperty::JustifyContent(_) => CssPropertyType::JustifyContent,
            CssProperty::AlignItems(_) => CssPropertyType::AlignItems,
            CssProperty::AlignContent(_) => CssPropertyType::AlignContent,
            CssProperty::BackgroundContent(_) => CssPropertyType::BackgroundImage,
            CssProperty::BackgroundPosition(_) => CssPropertyType::BackgroundPosition,
            CssProperty::BackgroundSize(_) => CssPropertyType::BackgroundSize,
            CssProperty::BackgroundRepeat(_) => CssPropertyType::BackgroundRepeat,
            CssProperty::OverflowX(_) => CssPropertyType::OverflowX,
            CssProperty::OverflowY(_) => CssPropertyType::OverflowY,
            CssProperty::PaddingTop(_) => CssPropertyType::PaddingTop,
            CssProperty::PaddingLeft(_) => CssPropertyType::PaddingLeft,
            CssProperty::PaddingRight(_) => CssPropertyType::PaddingRight,
            CssProperty::PaddingBottom(_) => CssPropertyType::PaddingBottom,
            CssProperty::MarginTop(_) => CssPropertyType::MarginTop,
            CssProperty::MarginLeft(_) => CssPropertyType::MarginLeft,
            CssProperty::MarginRight(_) => CssPropertyType::MarginRight,
            CssProperty::MarginBottom(_) => CssPropertyType::MarginBottom,
            CssProperty::BorderTopLeftRadius(_) => CssPropertyType::BorderTopLeftRadius,
            CssProperty::BorderTopRightRadius(_) => CssPropertyType::BorderTopRightRadius,
            CssProperty::BorderBottomLeftRadius(_) => CssPropertyType::BorderBottomLeftRadius,
            CssProperty::BorderBottomRightRadius(_) => CssPropertyType::BorderBottomRightRadius,
            CssProperty::BorderTopColor(_) => CssPropertyType::BorderTopColor,
            CssProperty::BorderRightColor(_) => CssPropertyType::BorderRightColor,
            CssProperty::BorderLeftColor(_) => CssPropertyType::BorderLeftColor,
            CssProperty::BorderBottomColor(_) => CssPropertyType::BorderBottomColor,
            CssProperty::BorderTopStyle(_) => CssPropertyType::BorderTopStyle,
            CssProperty::BorderRightStyle(_) => CssPropertyType::BorderRightStyle,
            CssProperty::BorderLeftStyle(_) => CssPropertyType::BorderLeftStyle,
            CssProperty::BorderBottomStyle(_) => CssPropertyType::BorderBottomStyle,
            CssProperty::BorderTopWidth(_) => CssPropertyType::BorderTopWidth,
            CssProperty::BorderRightWidth(_) => CssPropertyType::BorderRightWidth,
            CssProperty::BorderLeftWidth(_) => CssPropertyType::BorderLeftWidth,
            CssProperty::BorderBottomWidth(_) => CssPropertyType::BorderBottomWidth,
            CssProperty::BoxShadowLeft(_) => CssPropertyType::BoxShadowLeft,
            CssProperty::BoxShadowRight(_) => CssPropertyType::BoxShadowRight,
            CssProperty::BoxShadowTop(_) => CssPropertyType::BoxShadowTop,
            CssProperty::BoxShadowBottom(_) => CssPropertyType::BoxShadowBottom,
            CssProperty::ScrollbarStyle(_) => CssPropertyType::ScrollbarStyle,
            CssProperty::Opacity(_) => CssPropertyType::Opacity,
            CssProperty::Transform(_) => CssPropertyType::Transform,
            CssProperty::TransformOrigin(_) => CssPropertyType::TransformOrigin,
            CssProperty::PerspectiveOrigin(_) => CssPropertyType::PerspectiveOrigin,
            CssProperty::BackfaceVisibility(_) => CssPropertyType::BackfaceVisibility,
        }
    }

    /// The kind (key) of this property. The background layer variant reports
    /// `BackgroundImage`, whichever of its three keys it was declared with.
    pub fn get_type(&self) -> (r: CssPropertyType)
        ensures
            r == self.spec_type(),
    {
        match self {
            CssProperty::TextColor(_) => CssPropertyType::TextColor,
            CssProperty::FontSize(_) => CssPropertyType::FontSize,
            CssProperty::FontFamily(_) => CssPropertyType::FontFamily,
            CssProperty::TextAlign(_) => CssPropertyType::TextAlign,
            CssProperty::LetterSpacing(_) => CssPropertyType::LetterSpacing,
            CssProperty::LineHeight(_) => CssPropertyType::LineHeight,
            CssProperty::WordSpacing(_) => CssPropertyType::WordSpacing,
            CssProperty::TabWidth(_) => CssPropertyType::TabWidth,
            CssProperty::Cursor(_) => CssPropertyType::Cursor,
            CssProperty::Display(_) => CssPropertyType::Display,
            CssProperty::Float(_) => CssPropertyType::Float,
            CssProperty::BoxSizing(_) => CssPropertyType::BoxSizing,
            CssProperty::Width(_) => CssPropertyType::Width,
            CssProperty::Height(_) => CssPropertyType::Height,
            CssProperty::MinWidth(_) => CssPropertyType::MinWidth,
            CssProperty::MinHeight(_) => CssPropertyType::MinHeight,
            CssProperty::MaxWidth(_) => CssPropertyType::MaxWidth,
            CssProperty::MaxHeight(_) => CssPropertyType::MaxHeight,
            CssProperty::Position(_) => CssPropertyType::Position,
            CssProperty::Top(_) => CssPropertyType::Top,
            CssProperty::Right(_) => CssPropertyType::Right,
            CssProperty::Left(_) => CssPropertyType::Left,
            CssProperty::Bottom(_) => CssPropertyType::Bottom,
            CssProperty::FlexWrap(_) => CssPropertyType::FlexWrap,
            CssProperty::FlexDirection(_) => CssPropertyType::FlexDirection,
            CssProperty::FlexGrow(_) => CssPropertyType::FlexGrow,
            CssProperty::FlexShrink(_) => CssPropertyType::FlexShrink,
            CssProperty::JustifyContent(_) => CssPropertyType::JustifyContent,
            CssProperty::AlignItems(_) => CssPropertyType::AlignItems,
            CssProperty::AlignContent(_) => CssPropertyType::AlignContent,
            CssProperty::BackgroundContent(_) => CssPropertyType::BackgroundImage,
            CssProperty::BackgroundPosition(_) => CssPropertyType::BackgroundPosition,
            CssProperty::BackgroundSize(_) => CssPropertyType::BackgroundSize,
            CssProperty::BackgroundRepeat(_) => CssPropertyType::BackgroundRepeat,
            CssProperty::OverflowX(_) => CssPropertyType::OverflowX,
            CssProperty::OverflowY(_) => CssPropertyType::OverflowY,
            CssProperty::PaddingTop(_) => CssPropertyType::PaddingTop,
            CssProperty::PaddingLeft(_) => CssPropertyType::PaddingLeft,
            CssProperty::PaddingRight(_) => CssPropertyType::PaddingRight,
            CssProperty::PaddingBottom(_) => CssPropertyType::PaddingBottom,
            CssProperty::MarginTop(_) => CssPropertyType::MarginTop,
            CssProperty::MarginLeft(_) => CssPropertyType::MarginLeft,
            CssProperty::MarginRight(_) => CssPropertyType::MarginRight,
            CssProperty::MarginBottom(_) => CssPropertyType::MarginBottom,
            CssProperty::BorderTopLeftRadius(_) => CssPropertyType::BorderTopLeftRadius,
            CssProperty::BorderTopRightRadius(_) => CssPropertyType::BorderTopRightRadius,
            CssProperty::BorderBottomLeftRadius(_) => CssPropertyType::BorderBottomLeftRadius,
            CssProperty::BorderBottomRightRadius(_) => CssPropertyType::BorderBottomRightRadius,
            CssProperty::BorderTopColor(_) => CssPropertyType::BorderTopColor,
            CssProperty::BorderRightColor(_) => CssPropertyType::BorderRightColor,
            CssProperty::BorderLeftColor(_) => CssPropertyType::BorderLeftColor,
            CssProperty::BorderBottomColor(_) => CssPropertyType::BorderBottomColor,
            CssProperty::BorderTopStyle(_) => CssPropertyType::BorderTopStyle,
            CssProperty::BorderRightStyle(_) => CssPropertyType::BorderRightStyle,
            CssProperty::BorderLeftStyle(_) => CssPropertyType::BorderLeftStyle,
            CssProperty::BorderBottomStyle(_) => CssPropertyType::BorderBottomStyle,
            CssProperty::BorderTopWidth(_) => CssPropertyType::BorderTopWidth,
            CssProperty::BorderRightWidth(_) => CssPropertyType::BorderRightWidth,
            CssProperty::BorderLeftWidth(_) => CssPropertyType::BorderLeftWidth,
            CssProperty::BorderBottomWidth(_) => CssPropertyType::BorderBottomWidth,
            CssProperty::BoxShadowLeft(_) => CssPropertyType::BoxShadowLeft,
            CssProperty::BoxShadowRight(_) => CssPropertyType::BoxShadowRight,
            CssProperty::BoxShadowTop(_) => CssPropertyType::BoxShadowTop,
            CssProperty::BoxShadowBottom(_) => CssPropertyType::BoxShadowBottom,
            CssProperty::ScrollbarStyle(_) => CssPropertyType::ScrollbarStyle,
            CssProperty::Opacity(_) => CssPropertyType::Opacity,
            CssProperty::Transform(_) => CssPropertyType::Transform,
            CssProperty::TransformOrigin(_) => CssPropertyType::TransformOrigin,
            CssProperty::PerspectiveOrigin(_) => CssPropertyType::PerspectiveOrigin,
            CssProperty::BackfaceVisibility(_) => CssPropertyType::BackfaceVisibility,
        }
    }

    /// The property of kind `prop_type` with the value `none`.
    pub fn none(prop_type: CssPropertyType) -> (r: Self)
        ensures
            r == keyword_property(prop_type, CssKeyword::NoneValue),
    {
        match prop_type {
            CssPropertyType::TextColor => CssProperty::TextColor(CssPropertyValue::NoneValue),
            CssPropertyType::FontSize => CssProperty::FontSize(CssPropertyValue::NoneValue),
            CssPropertyType::FontFamily => CssProperty::FontFamily(CssPropertyValue::NoneValue),
            CssPropertyType::TextAlign => CssProperty::TextAlign(CssPropertyValue::NoneValue),
            CssPropertyType::LetterSpacing => CssProperty::LetterSpacing(CssPropertyValue::NoneValue),
            CssPropertyType::LineHeight => CssProperty::LineHeight(CssPropertyValue::NoneValue),
            CssPropertyType::WordSpacing => CssProperty::WordSpacing(CssPropertyValue::NoneValue),
            CssPropertyType::TabWidth => CssProperty::TabWidth(CssPropertyValue::NoneValue),
            CssPropertyType::Cursor => CssProperty::Cursor(CssPropertyValue::NoneValue),
            CssPropertyType::Display => CssProperty::Display(CssPropertyValue::NoneValue),
            CssPropertyType::Float => CssProperty::Float(CssPropertyValue::NoneValue),
            CssPropertyType::BoxSizing => CssProperty::BoxSizing(CssPropertyValue::NoneValue),
            CssPropertyType::Width => CssProperty::Width(CssPropertyValue::NoneValue),
            CssPropertyType::Height => CssProperty::Height(CssPropertyValue::NoneValue),
            CssPropertyType::MinWidth => CssProperty::MinWidth(CssPropertyValue::NoneValue),
            CssPropertyType::MinHeight => CssProperty::MinHeight(CssPropertyValue::NoneValue),
            CssPropertyType::MaxWidth => CssProperty::MaxWidth(CssPropertyValue::NoneValue),
            CssPropertyType::MaxHeight => CssProperty::MaxHeight(CssPropertyValue::NoneValue),
            CssPropertyType::Position => CssProperty::Position(CssPropertyValue::NoneValue),
            CssPropertyType::Top => CssProperty::Top(CssPropertyValue::NoneValue),
            CssPropertyType::Right => CssProperty::Right(CssPropertyValue::NoneValue),
            CssPropertyType::Left => CssProperty::Left(CssPropertyValue::NoneValue),
            CssPropertyType::Bottom => CssProperty::Bottom(CssPropertyValue::NoneValue),
            CssPropertyType::FlexWrap => CssProperty::FlexWrap(CssPropertyValue::NoneValue),
            CssPropertyType::FlexDirection => CssProperty::FlexDirection(CssPropertyValue::NoneValue),
            CssPropertyType::FlexGrow => CssProperty::FlexGrow(CssPropertyValue::NoneValue),
            CssPropertyType::FlexShrink => CssProperty::FlexShrink(CssPropertyValue::NoneValue),
            CssPropertyType::JustifyContent => CssProperty::JustifyContent(CssPropertyValue::NoneValue),
            CssPropertyType::AlignItems => CssProperty::AlignItems(CssPropertyValue::NoneValue),
            CssPropertyType::AlignContent => CssProperty::AlignContent(CssPropertyValue::NoneValue),
            CssPropertyType::OverflowX => CssProperty::OverflowX(CssPropertyValue::NoneValue),
            CssPropertyType::OverflowY => CssProperty::OverflowY(CssPropertyValue::NoneValue),
            CssPropertyType::PaddingTop => CssProperty::PaddingTop(CssPropertyValue::NoneValue),
            CssPropertyType::PaddingLeft => CssProperty::PaddingLeft(CssPropertyValue::NoneValue),
            CssPropertyType::PaddingRight => CssProperty::PaddingRight(CssPropertyValue::NoneValue),
            CssPropertyType::PaddingBottom => CssProperty::PaddingBottom(CssPropertyValue::NoneValue),
            CssPropertyType::MarginTop => CssProperty::MarginTop(CssPropertyValue::NoneValue),
            CssPropertyType::MarginLeft => CssProperty::MarginLeft(CssPropertyValue::NoneValue),
            CssPropertyType::MarginRight => CssProperty::MarginRight(CssPropertyValue::NoneValue),
            CssPropertyType::MarginBottom => CssProperty::MarginBottom(CssPropertyValue::NoneValue),
            CssPropertyType::Background => CssProperty::BackgroundContent(CssPropertyValue::NoneValue),
            CssPropertyType::BackgroundImage => CssProperty::BackgroundContent(CssPropertyValue::NoneValue),
            CssPropertyType::BackgroundColor => CssProperty::BackgroundContent(CssPropertyValue::NoneValue),
            CssPropertyType::BackgroundPosition => CssProperty::BackgroundPosition(CssPropertyValue::NoneValue),
            CssPropertyType::BackgroundSize => CssProperty::BackgroundSize(CssPropertyValue::NoneValue),
            CssPropertyType::BackgroundRepeat => CssProperty::BackgroundRepeat(CssPropertyValue::NoneValue),
            CssPropertyType::BorderTopLeftRadius => CssProperty::BorderTopLeftRadius(CssPropertyValue::NoneValue),
            CssPropertyType::BorderTopRightRadius => CssProperty::BorderTopRightRadius(CssPropertyValue::NoneValue),
            CssPropertyType::BorderBottomLeftRadius => CssProperty::BorderBottomLeftRadius(CssPropertyValue::NoneValue),
            CssPropertyType::BorderBottomRightRadius => CssProperty::BorderBottomRightRadius(CssPropertyValue::NoneValue),
            CssPropertyType::BorderTopColor => CssProperty::BorderTopColor(CssPropertyValue::NoneValue),
            CssPropertyType::BorderRightColor => CssProperty::BorderRightColor(CssPropertyValue::NoneValue),
            CssPropertyType::BorderLeftColor => CssProperty::BorderLeftColor(CssPropertyValue::NoneValue),
            CssPropertyType::BorderBottomColor => CssProperty::BorderBottomColor(CssPropertyValue::NoneValue),
            CssPropertyType::BorderTopStyle => CssProperty::BorderTopStyle(CssPropertyValue::NoneValue),
            CssPropertyType::BorderRightStyle => CssProperty::BorderRightStyle(CssPropertyValue::NoneValue),
            CssPropertyType::BorderLeftStyle => CssProperty::BorderLeftStyle(CssPropertyValue::NoneValue),
            CssPropertyType::BorderBottomStyle => CssProperty::BorderBottomStyle(CssPropertyValue::NoneValue),
            CssPropertyType::BorderTopWidth => CssProperty::BorderTopWidth(CssPropertyValue::NoneValue),
            CssPropertyType::BorderRightWidth => CssProperty::BorderRightWidth(CssPropertyValue::NoneValue),
            CssPropertyType::BorderLeftWidth => CssProperty::BorderLeftWidth(CssPropertyValue::NoneValue),
            CssPropertyType::BorderBottomWidth => CssProperty::BorderBottomWidth(CssPropertyValue::NoneValue),
            CssPropertyType::BoxShadowLeft => CssProperty::BoxShadowLeft(CssPropertyValue::NoneValue),
            CssPropertyType::BoxShadowRight => CssProperty::BoxShadowRight(CssPropertyValue::NoneValue),
            CssPropertyType::BoxShadowTop => CssProperty::BoxShadowTop(CssPropertyValue::NoneValue),
            CssPropertyType::BoxShadowBottom => CssProperty::BoxShadowBottom(CssPropertyValue::NoneValue),
            CssPropertyType::ScrollbarStyle => CssProperty::ScrollbarStyle(CssPropertyValue::NoneValue),
            CssPropertyType::Opacity => CssProperty::Opacity(CssPropertyValue::NoneValue),
            CssPropertyType::Transform => CssProperty::Transform(CssPropertyValue::NoneValue),
            CssPropertyType::PerspectiveOrigin => CssProperty::PerspectiveOrigin(CssPropertyValue::NoneValue),
            CssPropertyType::TransformOrigin => CssProperty::TransformOrigin(CssPropertyValue::NoneValue),
            CssPropertyType::BackfaceVisibility => CssProperty::BackfaceVisibility(CssPropertyValue::NoneValue),
        }
    }

    /// The property of kind `prop_type` with the value `auto`.
    pub fn auto(prop_type: CssPropertyType) -> (r: Self)
        ensures
            r == keyword_property(prop_type, CssKeyword::Auto),
    {
        match prop_type {
            CssPropertyType::TextColor => CssProperty::TextColor(CssPropertyValue::Auto),
            CssPropertyType::FontSize => CssProperty::FontSize(CssPropertyValue::Auto),
            CssPropertyType::FontFamily => CssProperty::FontFamily(CssPropertyValue::Auto),
            CssPropertyType::TextAlign => CssProperty::TextAlign(CssPropertyValue::Auto),
            CssPropertyType::LetterSpacing => CssProperty::LetterSpacing(CssPropertyValue::Auto),
            CssPropertyType::LineHeight => CssProperty::LineHeight(CssPropertyValue::Auto),
            CssPropertyType::WordSpacing => CssProperty::WordSpacing(CssPropertyValue::Auto),
            CssPropertyType::TabWidth => CssProperty::TabWidth(CssPropertyValue::Auto),
            CssPropertyType::Cursor => CssProperty::Cursor(CssPropertyValue::Auto),
            CssPropertyType::Display => CssProperty::Display(CssPropertyValue::Auto),
            CssPropertyType::Float => CssProperty::Float(CssPropertyValue::Auto),
            CssPropertyType::BoxSizing => CssProperty::BoxSizing(CssPropertyValue::Auto),
            CssPropertyType::Width => CssProperty::Width(CssPropertyValue::Auto),
            CssPropertyType::Height => CssProperty::Height(CssPropertyValue::Auto),
            CssPropertyType::MinWidth => CssProperty::MinWidth(CssPropertyValue::Auto),
            CssPropertyType::MinHeight => CssProperty::MinHeight(CssPropertyValue::Auto),
            CssPropertyType::MaxWidth => CssProperty::MaxWidth(CssPropertyValue::Auto),
            CssPropertyType::MaxHeight => CssProperty::MaxHeight(CssPropertyValue::Auto),
            CssPropertyType::Position => CssProperty::Position(CssPropertyValue::Auto),
            CssPropertyType::Top => CssProperty::Top(CssPropertyValue::Auto),
            CssPropertyType::Right => CssProperty::Right(CssPropertyValue::Auto),
            CssPropertyType::Left => CssProperty::Left(CssPropertyValue::Auto),
            CssPropertyType::Bottom => CssProperty::Bottom(CssPropertyValue::Auto),
            CssPropertyType::FlexWrap => CssProperty::FlexWrap(CssPropertyValue::Auto),
            CssPropertyType::FlexDirection => CssProperty::FlexDirection(CssPropertyValue::Auto),
            CssPropertyType::FlexGrow => CssProperty::FlexGrow(CssPropertyValue::Auto),
            CssPropertyType::FlexShrink => CssProperty::FlexShrink(CssPropertyValue::Auto),
            CssPropertyType::JustifyContent => CssProperty::JustifyContent(CssPropertyValue::Auto),
            CssPropertyType::AlignItems => CssProperty::AlignItems(CssPropertyValue::Auto),
            CssPropertyType::AlignContent => CssProperty::AlignContent(CssPropertyValue::Auto),
            CssPropertyType::OverflowX => CssProperty::OverflowX(CssPropertyValue::Auto),
            CssPropertyType::OverflowY => CssProperty::OverflowY(CssPropertyValue::Auto),
            CssPropertyType::PaddingTop => CssProperty::PaddingTop(CssPropertyValue::Auto),
            CssPropertyType::PaddingLeft => CssProperty::PaddingLeft(CssPropertyValue::Auto),
            CssPropertyType::PaddingRight => CssProperty::PaddingRight(CssPropertyValue::Auto),
            CssPropertyType::PaddingBottom => CssProperty::PaddingBottom(CssPropertyValue::Auto),
            CssPropertyType::MarginTop => CssProperty::MarginTop(CssPropertyValue::Auto),
            CssPropertyType::MarginLeft => CssProperty::MarginLeft(CssPropertyValue::Auto),
            CssPropertyType::MarginRight => CssProperty::MarginRight(CssPropertyValue::Auto),
            CssPropertyType::MarginBottom => CssProperty::MarginBottom(CssPropertyValue::Auto),
            CssPropertyType::Background => CssProperty::BackgroundContent(CssPropertyValue::Auto),
            CssPropertyType::BackgroundImage => CssProperty::BackgroundContent(CssPropertyValue::Auto),
            CssPropertyType::BackgroundColor => CssProperty::BackgroundContent(CssPropertyValue::Auto),
            CssPropertyType::BackgroundPosition => CssProperty::BackgroundPosition(CssPropertyValue::Auto),
            CssPropertyType::BackgroundSize => CssProperty::BackgroundSize(CssPropertyValue::Auto),
            CssPropertyType::BackgroundRepeat => CssProperty::BackgroundRepeat(CssPropertyValue::Auto),
            CssPropertyType::BorderTopLeftRadius => CssProperty::BorderTopLeftRadius(CssPropertyValue::Auto),
            CssPropertyType::BorderTopRightRadius => CssProperty::BorderTopRightRadius(CssPropertyValue::Auto),
            CssPropertyType::BorderBottomLeftRadius => CssProperty::BorderBottomLeftRadius(CssPropertyValue::Auto),
            CssPropertyType::BorderBottomRightRadius => CssProperty::BorderBottomRightRadius(CssPropertyValue::Auto),
            CssPropertyType::BorderTopColor => CssProperty::BorderTopColor(CssPropertyValue::Auto),
            CssPropertyType::BorderRightColor => CssProperty::BorderRightColor(CssPropertyValue::Auto),
            CssPropertyType::BorderLeftColor => CssProperty::BorderLeftColor(CssPropertyValue::Auto),
            CssPropertyType::BorderBottomColor => CssProperty::BorderBottomColor(CssPropertyValue::Auto),
            CssPropertyType::BorderTopStyle => CssProperty::BorderTopStyle(CssPropertyValue::Auto),
            CssPropertyType::BorderRightStyle => CssProperty::BorderRightStyle(CssPropertyValue::Auto),
            CssPropertyType::BorderLeftStyle => CssProperty::BorderLeftStyle(CssPropertyValue::Auto),
            CssPropertyType::BorderBottomStyle => CssProperty::BorderBottomStyle(CssPropertyValue::Auto),
            CssPropertyType::BorderTopWidth => CssProperty::BorderTopWidth(CssPropertyValue::Auto),
            CssPropertyType::BorderRightWidth => CssProperty::BorderRightWidth(CssPropertyValue::Auto),
            CssPropertyType::BorderLeftWidth => CssProperty::BorderLeftWidth(CssPropertyValue::Auto),
            CssPropertyType::BorderBottomWidth => CssProperty::BorderBottomWidth(CssPropertyValue::Auto),
            CssPropertyType::BoxShadowLeft => CssProperty::BoxShadowLeft(CssPropertyValue::Auto),
            CssPropertyType::BoxShadowRight => CssProperty::BoxShadowRight(CssPropertyValue::Auto),
            CssPropertyType::BoxShadowTop => CssProperty::BoxShadowTop(CssPropertyValue::Auto),
            CssPropertyType::BoxShadowBottom => CssProperty::BoxShadowBottom(CssPropertyValue::Auto),
            CssPropertyType::ScrollbarStyle => CssProperty::ScrollbarStyle(CssPropertyValue::Auto),
            CssPropertyType::Opacity => CssProperty::Opacity(CssPropertyValue::Auto),
            CssPropertyType::Transform => CssProperty::Transform(CssPropertyValue::Auto),
            CssPropertyType::PerspectiveOrigin => CssProperty::PerspectiveOrigin(CssPropertyValue::Auto),
            CssPropertyType::TransformOrigin => CssProperty::TransformOrigin(CssPropertyValue::Auto),
            CssPropertyType::BackfaceVisibility => CssProperty::BackfaceVisibility(CssPropertyValue::Auto),
        }
    }

    /// The property of kind `prop_type` with the value `initial`.
    pub fn initial(prop_type: CssPropertyType) -> (r: Self)
        ensures
            r == keyword_property(prop_type, CssKeyword::Initial),
    {
        match prop_type {
            CssPropertyType::TextColor => CssProperty::TextColor(CssPropertyValue::Initial),
            CssPropertyType::FontSize => CssProperty::FontSize(CssPropertyValue::Initial),
            CssPropertyType::FontFamily => CssProperty::FontFamily(CssPropertyValue::Initial),
            CssPropertyType::TextAlign => CssProperty::TextAlign(CssPropertyValue::Initial),
            CssPropertyType::LetterSpacing => CssProperty::LetterSpacing(CssPropertyValue::Initial),
            CssPropertyType::LineHeight => CssProperty::LineHeight(CssPropertyValue::Initial),
            CssPropertyType::WordSpacing => CssProperty::WordSpacing(CssPropertyValue::Initial),
            CssPropertyType::TabWidth => CssProperty::TabWidth(CssPropertyValue::Initial),
            CssPropertyType::Cursor => CssProperty::Cursor(CssPropertyValue::Initial),
            CssPropertyType::Display => CssProperty::Display(CssPropertyValue::Initial),
            CssPropertyType::Float => CssProperty::Float(CssPropertyValue::Initial),
            CssPropertyType::BoxSizing => CssProperty::BoxSizing(CssPropertyValue::Initial),
            CssPropertyType::Width => CssProperty::Width(CssPropertyValue::Initial),
            CssPropertyType::Height => CssProperty::Height(CssPropertyValue::Initial),
            CssPropertyType::MinWidth => CssProperty::MinWidth(CssPropertyValue::Initial),
            CssPropertyType::MinHeight => CssProperty::MinHeight(CssPropertyValue::Initial),
            CssPropertyType::MaxWidth => CssProperty::MaxWidth(CssPropertyValue::Initial),
            CssPropertyType::MaxHeight => CssProperty::MaxHeight(CssPropertyValue::Initial),
            CssPropertyType::Position => CssProperty::Position(CssPropertyValue::Initial),
            CssPropertyType::Top => CssProperty::Top(CssPropertyValue::Initial),
            CssPropertyType::Right => CssProperty::Right(CssPropertyValue::Initial),
            CssPropertyType::Left => CssProperty::Left(CssPropertyValue::Initial),
            CssPropertyType::Bottom => CssProperty::Bottom(CssPropertyValue::Initial),
            CssPropertyType::FlexWrap => CssProperty::FlexWrap(CssPropertyValue::Initial),
            CssPropertyType::FlexDirection => CssProperty::FlexDirection(CssPropertyValue::Initial),
            CssPropertyType::FlexGrow => CssProperty::FlexGrow(CssPropertyValue::Initial),
            CssPropertyType::FlexShrink => CssProperty::FlexShrink(CssPropertyValue::Initial),
            CssPropertyType::JustifyContent => CssProperty::JustifyContent(CssPropertyValue::Initial),
            CssPropertyType::AlignItems => CssProperty::AlignItems(CssPropertyValue::Initial),
            CssPropertyType::AlignContent => CssProperty::AlignContent(CssPropertyValue::Initial),
            CssPropertyType::OverflowX => CssProperty::OverflowX(CssPropertyValue::Initial),
            CssPropertyType::OverflowY => CssProperty::OverflowY(CssPropertyValue::Initial),
            CssPropertyType::PaddingTop => CssProperty::PaddingTop(CssPropertyValue::Initial),
            CssPropertyType::PaddingLeft => CssProperty::PaddingLeft(CssPropertyValue::Initial),
            CssPropertyType::PaddingRight => CssProperty::PaddingRight(CssPropertyValue::Initial),
            CssPropertyType::PaddingBottom => CssProperty::PaddingBottom(CssPropertyValue::Initial),
            CssPropertyType::MarginTop => CssProperty::MarginTop(CssPropertyValue::Initial),
            CssPropertyType::MarginLeft => CssProperty::MarginLeft(CssPropertyValue::Initial),
            CssPropertyType::MarginRight => CssProperty::MarginRight(CssPropertyValue::Initial),
            CssPropertyType::MarginBottom => CssProperty::MarginBottom(CssPropertyValue::Initial),
            CssPropertyType::Background => CssProperty::BackgroundContent(CssPropertyValue::Initial),
            CssPropertyType::BackgroundImage => CssProperty::BackgroundContent(CssPropertyValue::Initial),
            CssPropertyType::BackgroundColor => CssProperty::BackgroundContent(CssPropertyValue::Initial),
            CssPropertyType::BackgroundPosition => CssProperty::BackgroundPosition(CssPropertyValue::Initial),
            CssPropertyType::BackgroundSize => CssProperty::BackgroundSize(CssPropertyValue::Initial),
            CssPropertyType::BackgroundRepeat => CssProperty::BackgroundRepeat(CssPropertyValue::Initial),
            CssPropertyType::BorderTopLeftRadius => CssProperty::BorderTopLeftRadius(CssPropertyValue::Initial),
            CssPropertyType::BorderTopRightRadius => CssProperty::BorderTopRightRadius(CssPropertyValue::Initial),
            CssPropertyType::BorderBottomLeftRadius => CssProperty::BorderBottomLeftRadius(CssPropertyValue::Initial),
            CssPropertyType::BorderBottomRightRadius => CssProperty::BorderBottomRightRadius(CssPropertyValue::Initial),
            CssPropertyType::BorderTopColor => CssProperty::BorderTopColor(CssPropertyValue::Initial),
            CssPropertyType::BorderRightColor => CssProperty::BorderRightColor(CssPropertyValue::Initial),
            CssPropertyType::BorderLeftColor => CssProperty::BorderLeftColor(CssPropertyValue::Initial),
            CssPropertyType::BorderBottomColor => CssProperty::BorderBottomColor(CssPropertyValue::Initial),
            CssPropertyType::BorderTopStyle => CssProperty::BorderTopStyle(CssPropertyValue::Initial),
            CssPropertyType::BorderRightStyle => CssProperty::BorderRightStyle(CssPropertyValue::Initial),
            CssPropertyType::BorderLeftStyle => CssProperty::BorderLeftStyle(CssPropertyValue::Initial),
            CssPropertyType::BorderBottomStyle => CssProperty::BorderBottomStyle(CssPropertyValue::Initial),
            CssPropertyType::BorderTopWidth => CssProperty::BorderTopWidth(CssPropertyValue::Initial),
            CssPropertyType::BorderRightWidth => CssProperty::BorderRightWidth(CssPropertyValue::Initial),
            CssPropertyType::BorderLeftWidth => CssProperty::BorderLeftWidth(CssPropertyValue::Initial),
            CssPropertyType::BorderBottomWidth => CssProperty::BorderBottomWidth(CssPropertyValue::Initial),
            CssPropertyType::BoxShadowLeft => CssProperty::BoxShadowLeft(CssPropertyValue::Initial),
            CssPropertyType::BoxShadowRight => CssProperty::BoxShadowRight(CssPropertyValue::Initial),
            CssPropertyType::BoxShadowTop => CssProperty::BoxShadowTop(CssPropertyValue::Initial),
            CssPropertyType::BoxShadowBottom => CssProperty::BoxShadowBottom(CssPropertyValue::Initial),
            CssPropertyType::ScrollbarStyle => CssProperty::ScrollbarStyle(CssPropertyValue::Initial),
            CssPropertyType::Opacity => CssProperty::Opacity(CssPropertyValue::Initial),
            CssPropertyType::Transform => CssProperty::Transform(CssPropertyValue::Initial),
            CssPropertyType::PerspectiveOrigin => CssProperty::PerspectiveOrigin(CssPropertyValue::Initial),
            CssPropertyType::TransformOrigin => CssProperty::TransformOrigin(CssPropertyValue::Initial),
            CssPropertyType::BackfaceVisibility => CssProperty::BackfaceVisibility(CssPropertyValue::Initial),
        }
    }

    /// The property of kind `prop_type` with the value `inherit`.
    pub fn inherit(prop_type: CssPropertyType) -> (r: Self)
        ensures
            r == keyword_property(prop_type, CssKeyword::Inherit),
    {
        match prop_type {
            CssPropertyType::TextColor => CssProperty::TextColor(CssPropertyValue::Inherit),
            CssPropertyType::FontSize => CssProperty::FontSize(CssPropertyValue::Inherit),
            CssPropertyType::FontFamily => CssProperty::FontFamily(CssPropertyValue::Inherit),
            CssPropertyType::TextAlign => CssProperty::TextAlign(CssPropertyValue::Inherit),
            CssPropertyType::LetterSpacing => CssProperty::LetterSpacing(CssPropertyValue::Inherit),
            CssPropertyType::LineHeight => CssProperty::LineHeight(CssPropertyValue::Inherit),
            CssPropertyType::WordSpacing => CssProperty::WordSpacing(CssPropertyValue::Inherit),
            CssPropertyType::TabWidth => CssProperty::TabWidth(CssPropertyValue::Inherit),
            CssPropertyType::Cursor => CssProperty::Cursor(CssPropertyValue::Inherit),
            CssPropertyType::Display => CssProperty::Display(CssPropertyValue::Inherit),
            CssPropertyType::Float => CssProperty::Float(CssPropertyValue::Inherit),
            CssPropertyType::BoxSizing => CssProperty::BoxSizing(CssPropertyValue::Inherit),
            CssPropertyType::Width => CssProperty::Width(CssPropertyValue::Inherit),
            CssPropertyType::Height => CssProperty::Height(CssPropertyValue::Inherit),
            CssPropertyType::MinWidth => CssProperty::MinWidth(CssPropertyValue::Inherit),
            CssPropertyType::MinHeight => CssProperty::MinHeight(CssPropertyValue::Inherit),
            CssPropertyType::MaxWidth => CssProperty::MaxWidth(CssPropertyValue::Inherit),
            CssPropertyType::MaxHeight => CssProperty::MaxHeight(CssPropertyValue::Inherit),
            CssPropertyType::Position => CssProperty::Position(CssPropertyValue::Inherit),
            CssPropertyType::Top => CssProperty::Top(CssPropertyValue::Inherit),
            CssPropertyType::Right => CssProperty::Right(CssPropertyValue::Inherit),
            CssPropertyType::Left => CssProperty::Left(CssPropertyValue::Inherit),
            CssPropertyType::Bottom => CssProperty::Bottom(CssPropertyValue::Inherit),
            CssPropertyType::FlexWrap => CssProperty::FlexWrap(CssPropertyValue::Inherit),
            CssPropertyType::FlexDirection => CssProperty::FlexDirection(CssPropertyValue::Inherit),
            CssPropertyType::FlexGrow => CssProperty::FlexGrow(CssPropertyValue::Inherit),
            CssPropertyType::FlexShrink => CssProperty::FlexShrink(CssPropertyValue::Inherit),
            CssPropertyType::JustifyContent => CssProperty::JustifyContent(CssPropertyValue::Inherit),
            CssPropertyType::AlignItems => CssProperty::AlignItems(CssPropertyValue::Inherit),
            CssPropertyType::AlignContent => CssProperty::AlignContent(CssPropertyValue::Inherit),
            CssPropertyType::OverflowX => CssProperty::OverflowX(CssPropertyValue::Inherit),
            CssPropertyType::OverflowY => CssProperty::OverflowY(CssPropertyValue::Inherit),
            CssPropertyType::PaddingTop => CssProperty::PaddingTop(CssPropertyValue::Inherit),
            CssPropertyType::PaddingLeft => CssProperty::PaddingLeft(CssPropertyValue::Inherit),
            CssPropertyType::PaddingRight => CssProperty::PaddingRight(CssPropertyValue::Inherit),
            CssPropertyType::PaddingBottom => CssProperty::PaddingBottom(CssPropertyValue::Inherit),
            CssPropertyType::MarginTop => CssProperty::MarginTop(CssPropertyValue::Inherit),
            CssPropertyType::MarginLeft => CssProperty::MarginLeft(CssPropertyValue::Inherit),
            CssPropertyType::MarginRight => CssProperty::MarginRight(CssPropertyValue::Inherit),
            CssPropertyType::MarginBottom => CssProperty::MarginBottom(CssPropertyValue::Inherit),
            CssPropertyType::Background => CssProperty::BackgroundContent(CssPropertyValue::Inherit),
            CssPropertyType::BackgroundImage => CssProperty::BackgroundContent(CssPropertyValue::Inherit),
            CssPropertyType::BackgroundColor => CssProperty::BackgroundContent(CssPropertyValue::Inherit),
            CssPropertyType::BackgroundPosition => CssProperty::BackgroundPosition(CssPropertyValue::Inherit),
            CssPropertyType::BackgroundSize => CssProperty::BackgroundSize(CssPropertyValue::Inherit),
            CssPropertyType::BackgroundRepeat => CssProperty::BackgroundRepeat(CssPropertyValue::Inherit),
            CssPropertyType::BorderTopLeftRadius => CssProperty::BorderTopLeftRadius(CssPropertyValue::Inherit),
            CssPropertyType::BorderTopRightRadius => CssProperty::BorderTopRightRadius(CssPropertyValue::Inherit),
            CssPropertyType::BorderBottomLeftRadius => CssProperty::BorderBottomLeftRadius(CssPropertyValue::Inherit),
            CssPropertyType::BorderBottomRightRadius => CssProperty::BorderBottomRightRadius(CssPropertyValue::Inherit),
            CssPropertyType::BorderTopColor => CssProperty::BorderTopColor(CssPropertyValue::Inherit),
            CssPropertyType::BorderRightColor => CssProperty::BorderRightColor(CssPropertyValue::Inherit),
            CssPropertyType::BorderLeftColor => CssProperty::BorderLeftColor(CssPropertyValue::Inherit),
            CssPropertyType::BorderBottomColor => CssProperty::BorderBottomColor(CssPropertyValue::Inherit),
            CssPropertyType::BorderTopStyle => CssProperty::BorderTopStyle(CssPropertyValue::Inherit),
            CssPropertyType::BorderRightStyle => CssProperty::BorderRightStyle(CssPropertyValue::Inherit),
            CssPropertyType::BorderLeftStyle => CssProperty::BorderLeftStyle(CssPropertyValue::Inherit),
            CssPropertyType::BorderBottomStyle => CssProperty::BorderBottomStyle(CssPropertyValue::Inherit),
            CssPropertyType::BorderTopWidth => CssProperty::BorderTopWidth(CssPropertyValue::Inherit),
            CssPropertyType::BorderRightWidth => CssProperty::BorderRightWidth(CssPropertyValue::Inherit),
            CssPropertyType::BorderLeftWidth => CssProperty::BorderLeftWidth(CssPropertyValue::Inherit),
            CssPropertyType::BorderBottomWidth => CssProperty::BorderBottomWidth(CssPropertyValue::Inherit),
            CssPropertyType::BoxShadowLeft => CssProperty::BoxShadowLeft(CssPropertyValue::Inherit),
            CssPropertyType::BoxShadowRight => CssProperty::BoxShadowRight(CssPropertyValue::Inherit),
            CssPropertyType::BoxShadowTop => CssProperty::BoxShadowTop(CssPropertyValue::Inherit),
            CssPropertyType::BoxShadowBottom => CssProperty::BoxShadowBottom(CssPropertyValue::Inherit),
            CssPropertyType::ScrollbarStyle => CssProperty::ScrollbarStyle(CssPropertyValue::Inherit),
            CssPropertyType::Opacity => CssProperty::Opacity(CssPropertyValue::Inherit),
            CssPropertyType::Transform => CssProperty::Transform(CssPropertyValue::Inherit),
            CssPropertyType::PerspectiveOrigin => CssProperty::PerspectiveOrigin(CssPropertyValue::Inherit),
            CssPropertyType::TransformOrigin => CssProperty::TransformOrigin(CssPropertyValue::Inherit),
            CssPropertyType::BackfaceVisibility => CssProperty::BackfaceVisibility(CssPropertyValue::Inherit),
        }
    }

    /// A `text_color` declaration with an exact value.
    pub fn text_color(input: StyleTextColor) -> (r: Self)
        ensures
            r == CssProperty::TextColor(CssPropertyValue::Exact(input)),
    {
        CssProperty::TextColor(CssPropertyValue::Exact(input))
    }

    /// A `font_size` declaration with an exact value.
    pub fn font_size(input: StyleFontSize) -> (r: Self)
        ensures
            r == CssProperty::FontSize(CssPropertyValue::Exact(input)),
    {
        CssProperty::FontSize(CssPropertyValue::Exact(input))
    }

    /// A `font_family` declaration with an exact value.
    pub fn font_family(input: StyleFontFamily) -> (r: Self)
        ensures
            r == CssProperty::FontFamily(CssPropertyValue::Exact(input)),
    {
        CssProperty::FontFamily(CssPropertyValue::Exact(input))
    }

    /// A `text_align` declaration with an exact value.
    pub fn text_align(input: StyleTextAlignmentHorz) -> (r: Self)
        ensures
            r == CssProperty::TextAlign(CssPropertyValue::Exact(input)),
    {
        CssProperty::TextAlign(CssPropertyValue::Exact(input))
    }

    /// A `letter_spacing` declaration with an exact value.
    pub fn letter_spacing(input: StyleLetterSpacing) -> (r: Self)
        ensures
            r == CssProperty::LetterSpacing(CssPropertyValue::Exact(input)),
    {
        CssProperty::LetterSpacing(CssPropertyValue::Exact(input))
    }

    /// A `line_height` declaration with an exact value.
    pub fn line_height(input: StyleLineHeight) -> (r: Self)
        ensures
            r == CssProperty::LineHeight(CssPropertyValue::Exact(input)),
    {
        CssProperty::LineHeight(CssPropertyValue::Exact(input))
    }

    /// A `word_spacing` declaration with an exact value.
    pub fn word_spacing(input: StyleWordSpacing) -> (r: Self)
        ensures
            r == CssProperty::WordSpacing(CssPropertyValue::Exact(input)),
    {
        CssProperty::WordSpacing(CssPropertyValue::Exact(input))
    }

    /// A `tab_width` declaration with an exact value.
    pub fn tab_width(input: StyleTabWidth) -> (r: Self)
        ensures
            r == CssProperty::TabWidth(CssPropertyValue::Exact(input)),
    {
        CssProperty::TabWidth(CssPropertyValue::Exact(input))
    }

    /// A `cursor` declaration with an exact value.
    pub fn cursor(input: StyleCursor) -> (r: Self)
        ensures
            r == CssProperty::Cursor(CssPropertyValue::Exact(input)),
    {
        CssProperty::Cursor(CssPropertyValue::Exact(input))
    }

    /// A `display` declaration with an exact value.
    pub fn display(input: LayoutDisplay) -> (r: Self)
        ensures
            r == CssProperty::Display(CssPropertyValue::Exact(input)),
    {
        CssProperty::Display(CssPropertyValue::Exact(input))
    }

    /// A `float` declaration with an exact value.
    pub fn float(input: LayoutFloat) -> (r: Self)
        ensures
            r == CssProperty::Float(CssPropertyValue::Exact(input)),
    {
        CssProperty::Float(CssPropertyValue::Exact(input))
    }

    /// A `box_sizing` declaration with an exact value.
    pub fn box_sizing(input: LayoutBoxSizing) -> (r: Self)
        ensures
            r == CssProperty::BoxSizing(CssPropertyValue::Exact(input)),
    {
        CssProperty::BoxSizing(CssPropertyValue::Exact(input))
    }

    /// A `width` declaration with an exact value.
    pub fn width(input: LayoutWidth) -> (r: Self)
        ensures
            r == CssProperty::Width(CssPropertyValue::Exact(input)),
    {
        CssProperty::Width(CssPropertyValue::Exact(input))
    }

    /// A `height` declaration with an exact value.
    pub fn height(input: LayoutHeight) -> (r: Self)
        ensures
            r == CssProperty::Height(CssPropertyValue::Exact(input)),
    {
        CssProperty::Height(CssPropertyValue::Exact(input))
    }

    /// A `min_width` declaration with an exact value.
    pub fn min_width(input: LayoutMinWidth) -> (r: Self)
        ensures
            r == CssProperty::MinWidth(CssPropertyValue::Exact(input)),
    {
        CssProperty::MinWidth(CssPropertyValue::Exact(input))
    }

    /// A `min_height` declaration with an exact value.
    pub fn min_height(input: LayoutMinHeight) -> (r: Self)
        ensures
            r == CssProperty::MinHeight(CssPropertyValue::Exact(input)),
    {
        CssProperty::MinHeight(CssPropertyValue::Exact(input))
    }

    /// A `max_width` declaration with an exact value.
    pub fn max_width(input: LayoutMaxWidth) -> (r: Self)
        ensures
            r == CssProperty::MaxWidth(CssPropertyValue::Exact(input)),
    {
        CssProperty::MaxWidth(CssPropertyValue::Exact(input))
    }

    /// A `max_height` declaration with an exact value.
    pub fn max_height(input: LayoutMaxHeight) -> (r: Self)
        ensures
            r == CssProperty::MaxHeight(CssPropertyValue::Exact(input)),
    {
        CssProperty::MaxHeight(CssPropertyValue::Exact(input))
    }

    /// A `position` declaration with an exact value.
    pub fn position(input: LayoutPosition) -> (r: Self)
        ensures
            r == CssProperty::Position(CssPropertyValue::Exact(input)),
    {
        CssProperty::Position(CssPropertyValue::Exact(input))
    }

    /// A `top` declaration with an exact value.
    pub fn top(input: LayoutTop) -> (r: Self)
        ensures
            r == CssProperty::Top(CssPropertyValue::Exact(input)),
    {
        CssProperty::Top(CssPropertyValue::Exact(input))
    }

    /// A `right` declaration with an exact value.
    pub fn right(input: LayoutRight) -> (r: Self)
        ensures
            r == CssProperty::Right(CssPropertyValue::Exact(input)),
    {
        CssProperty::Right(CssPropertyValue::Exact(input))
    }

    /// A `left` declaration with an exact value.
    pub fn left(input: LayoutLeft) -> (r: Self)
        ensures
            r == CssProperty::Left(CssPropertyValue::Exact(input)),
    {
        CssProperty::Left(CssPropertyValue::Exact(input))
    }

    /// A `bottom` declaration with an exact value.
    pub fn bottom(input: LayoutBottom) -> (r: Self)
        ensures
            r == CssProperty::Bottom(CssPropertyValue::Exact(input)),
    {
        CssProperty::Bottom(CssPropertyValue::Exact(input))
    }

    /// A `flex_wrap` declaration with an exact value.
    pub fn flex_wrap(input: LayoutWrap) -> (r: Self)
        ensures
            r == CssProperty::FlexWrap(CssPropertyValue::Exact(input)),
    {
        CssProperty::FlexWrap(CssPropertyValue::Exact(input))
    }

    /// A `flex_direction` declaration with an exact value.
    pub fn flex_direction(input: LayoutFlexDirection) -> (r: Self)
        ensures
            r == CssProperty::FlexDirection(CssPropertyValue::Exact(input)),
    {
        CssProperty::FlexDirection(CssPropertyValue::Exact(input))
    }

    /// A `flex_grow` declaration with an exact value.
    pub fn flex_grow(input: LayoutFlexGrow) -> (r: Self)
        ensures
            r == CssProperty::FlexGrow(CssPropertyValue::Exact(input)),
    {
        CssProperty::FlexGrow(CssPropertyValue::Exact(input))
    }

    /// A `flex_shrink` declaration with an exact value.
    pub fn flex_shrink(input: LayoutFlexShrink) -> (r: Self)
        ensures
            r == CssProperty::FlexShrink(CssPropertyValue::Exact(input)),
    {
        CssProperty::FlexShrink(CssPropertyValue::Exact(input))
    }

    /// A `justify_content` declaration with an exact value.
    pub fn justify_content(input: LayoutJustifyContent) -> (r: Self)
        ensures
            r == CssProperty::JustifyContent(CssPropertyValue::Exact(input)),
    {
        CssProperty::JustifyContent(CssPropertyValue::Exact(input))
    }

    /// A `align_items` declaration with an exact value.
    pub fn align_items(input: LayoutAlignItems) -> (r: Self)
        ensures
            r == CssProperty::AlignItems(CssPropertyValue::Exact(input)),
    {
        CssProperty::AlignItems(CssPropertyValue::Exact(input))
    }

    /// A `align_content` declaration with an exact value.
    pub fn align_content(input: LayoutAlignContent) -> (r: Self)
        ensures
            r == CssProperty::AlignContent(CssPropertyValue::Exact(input)),
    {
        CssProperty::AlignContent(CssPropertyValue::Exact(input))
    }

    /// A `background_content` declaration with an exact value.
    pub fn background_content(input: StyleBackgroundContentVec) -> (r: Self)
        ensures
            r == CssProperty::BackgroundContent(CssPropertyValue::Exact(input)),
    {
        CssProperty::BackgroundContent(CssPropertyValue::Exact(input))
    }

    /// A `background_position` declaration with an exact value.
    pub fn background_position(input: StyleBackgroundPositionVec) -> (r: Self)
        ensures
            r == CssProperty::BackgroundPosition(CssPropertyValue::Exact(input)),
    {
        CssProperty::BackgroundPosition(CssPropertyValue::Exact(input))
    }

    /// A `background_size` declaration with an exact value.
    pub fn background_size(input: StyleBackgroundSizeVec) -> (r: Self)
        ensures
            r == CssProperty::BackgroundSize(CssPropertyValue::Exact(input)),
    {
        CssProperty::BackgroundSize(CssPropertyValue::Exact(input))
    }

    /// A `background_repeat` declaration with an exact value.
    pub fn background_repeat(input: StyleBackgroundRepeatVec) -> (r: Self)
        ensures
            r == CssProperty::BackgroundRepeat(CssPropertyValue::Exact(input)),
    {
        CssProperty::BackgroundRepeat(CssPropertyValue::Exact(input))
    }

    /// A `overflow_x` declaration with an exact value.
    pub fn overflow_x(input: Overflow) -> (r: Self)
        ensures
            r == CssProperty::OverflowX(CssPropertyValue::Exact(input)),
    {
        CssProperty::OverflowX(CssPropertyValue::Exact(input))
    }

    /// A `overflow_y` declaration with an exact value.
    pub fn overflow_y(input: Overflow) -> (r: Self)
        ensures
            r == CssProperty::OverflowY(CssPropertyValue::Exact(input)),
    {
        CssProperty::OverflowY(CssPropertyValue::Exact(input))
    }

    /// A `padding_top` declaration with an exact value.
    pub fn padding_top(input: LayoutPaddingTop) -> (r: Self)
        ensures
            r == CssProperty::PaddingTop(CssPropertyValue::Exact(input)),
    {
        CssProperty::PaddingTop(CssPropertyValue::Exact(input))
    }

    /// A `padding_left` declaration with an exact value.
    pub fn padding_left(input: LayoutPaddingLeft) -> (r: Self)
        ensures
            r == CssProperty::PaddingLeft(CssPropertyValue::Exact(input)),
    {
        CssProperty::PaddingLeft(CssPropertyValue::Exact(input))
    }

    /// A `padding_right` declaration with an exact value.
    pub fn padding_right(input: LayoutPaddingRight) -> (r: Self)
        ensures
            r == CssProperty::PaddingRight(CssPropertyValue::Exact(input)),
    {
        CssProperty::PaddingRight(CssPropertyValue::Exact(input))
    }

    /// A `padding_bottom` declaration with an exact value.
    pub fn padding_bottom(input: LayoutPaddingBottom) -> (r: Self)
        ensures
            r == CssProperty::PaddingBottom(CssPropertyValue::Exact(input)),
    {
        CssProperty::PaddingBottom(CssPropertyValue::Exact(input))
    }

    /// A `margin_top` declaration with an exact value.
    pub fn margin_top(input: LayoutMarginTop) -> (r: Self)
        ensures
            r == CssProperty::MarginTop(CssPropertyValue::Exact(input)),
    {
        CssProperty::MarginTop(CssPropertyValue::Exact(input))
    }

    /// A `margin_left` declaration with an exact value.
    pub fn margin_left(input: LayoutMarginLeft) -> (r: Self)
        ensures
            r == CssProperty::MarginLeft(CssPropertyValue::Exact(input)),
    {
        CssProperty::MarginLeft(CssPropertyValue::Exact(input))
    }

    /// A `margin_right` declaration with an exact value.
    pub fn margin_right(input: LayoutMarginRight) -> (r: Self)
        ensures
            r == CssProperty::MarginRight(CssPropertyValue::Exact(input)),
    {
        CssProperty::MarginRight(CssPropertyValue::Exact(input))
    }

    /// A `margin_bottom` declaration with an exact value.
    pub fn margin_bottom(input: LayoutMarginBottom) -> (r: Self)
        ensures
            r == CssProperty::MarginBottom(CssPropertyValue::Exact(input)),
    {
        CssProperty::MarginBottom(CssPropertyValue::Exact(input))
    }

    /// A `border_top_left_radius` declaration with an exact value.
    pub fn border_top_left_radius(input: StyleBorderTopLeftRadius) -> (r: Self)
        ensures
            r == CssProperty::BorderTopLeftRadius(CssPropertyValue::Exact(input)),
    {
        CssProperty::BorderTopLeftRadius(CssPropertyValue::Exact(input))
    }

    /// A `border_top_right_radius` declaration with an exact value.
    pub fn border_top_right_radius(input: StyleBorderTopRightRadius) -> (r: Self)
        ensures
            r == CssProperty::BorderTopRightRadius(CssPropertyValue::Exact(input)),
    {
        CssProperty::BorderTopRightRadius(CssPropertyValue::Exact(input))
    }

    /// A `border_bottom_left_radius` declaration with an exact value.
    pub fn border_bottom_left_radius(input: StyleBorderBottomLeftRadius) -> (r: Self)
        ensures
            r == CssProperty::BorderBottomLeftRadius(CssPropertyValue::Exact(input)),
    {
        CssProperty::BorderBottomLeftRadius(CssPropertyValue::Exact(input))
    }

    /// A `border_bottom_right_radius` declaration with an exact value.
    pub fn border_bottom_right_radius(input: StyleBorderBottomRightRadius) -> (r: Self)
        ensures
            r == CssProperty::BorderBottomRightRadius(CssPropertyValue::Exact(input)),
    {
        CssProperty::BorderBottomRightRadius(CssPropertyValue::Exact(input))
    }

    /// A `border_top_color` declaration with an exact value.
    pub fn border_top_color(input: StyleBorderTopColor) -> (r: Self)
        ensures
            r == CssProperty::BorderTopColor(CssPropertyValue::Exact(input)),
    {
        CssProperty::BorderTopColor(CssPropertyValue::Exact(input))
    }

    /// A `border_right_color` declaration with an exact value.
    pub fn border_right_color(input: StyleBorderRightColor) -> (r: Self)
        ensures
            r == CssProperty::BorderRightColor(CssPropertyValue::Exact(input)),
    {
        CssProperty::BorderRightColor(CssPropertyValue::Exact(input))
    }

    /// A `border_left_color` declaration with an exact value.
    pub fn border_left_color(input: StyleBorderLeftColor) -> (r: Self)
        ensures
            r == CssProperty::BorderLeftColor(CssPropertyValue::Exact(input)),
    {
        CssProperty::BorderLeftColor(CssPropertyValue::Exact(input))
    }

    /// A `border_bottom_color` declaration with an exact value.
    pub fn border_bottom_color(input: StyleBorderBottomColor) -> (r: Self)
        ensures
            r == CssProperty::BorderBottomColor(CssPropertyValue::Exact(input)),
    {
        CssProperty::BorderBottomColor(CssPropertyValue::Exact(input))
    }

    /// A `border_top_style` declaration with an exact value.
    pub fn border_top_style(input: StyleBorderTopStyle) -> (r: Self)
        ensures
            r == CssProperty::BorderTopStyle(CssPropertyValue::Exact(input)),
    {
        CssProperty::BorderTopStyle(CssPropertyValue::Exact(input))
    }

    /// A `border_right_style` declaration with an exact value.
    pub fn border_right_style(input: StyleBorderRightStyle) -> (r: Self)
        ensures
            r == CssProperty::BorderRightStyle(CssPropertyValue::Exact(input)),
    {
        CssProperty::BorderRightStyle(CssPropertyValue::Exact(input))
    }

    /// A `border_left_style` declaration with an exact value.
    pub fn border_left_style(input: StyleBorderLeftStyle) -> (r: Self)
        ensures
            r == CssProperty::BorderLeftStyle(CssPropertyValue::Exact(input)),
    {
        CssProperty::BorderLeftStyle(CssPropertyValue::Exact(input))
    }

    /// A `border_bottom_style` declaration with an exact value.
    pub fn border_bottom_style(input: StyleBorderBottomStyle) -> (r: Self)
        ensures
            r == CssProperty::BorderBottomStyle(CssPropertyValue::Exact(input)),
    {
        CssProperty::BorderBottomStyle(CssPropertyValue::Exact(input))
    }

    /// A `border_top_width` declaration with an exact value.
    pub fn border_top_width(input: StyleBorderTopWidth) -> (r: Self)
        ensures
            r == CssProperty::BorderTopWidth(CssPropertyValue::Exact(input)),
    {
        CssProperty::BorderTopWidth(CssPropertyValue::Exact(input))
    }

    /// A `border_right_width` declaration with an exact value.
    pub fn border_right_width(input: StyleBorderRightWidth) -> (r: Self)
        ensures
            r == CssProperty::BorderRightWidth(CssPropertyValue::Exact(input)),
    {
        CssProperty::BorderRightWidth(CssPropertyValue::Exact(input))
    }

    /// A `border_left_width` declaration with an exact value.
    pub fn border_left_width(input: StyleBorderLeftWidth) -> (r: Self)
        ensures
            r == CssProperty::BorderLeftWidth(CssPropertyValue::Exact(input)),
    {
        CssProperty::BorderLeftWidth(CssPropertyValue::Exact(input))
    }

    /// A `border_bottom_width` declaration with an exact value.
    pub fn border_bottom_width(input: StyleBorderBottomWidth) -> (r: Self)
        ensures
            r == CssProperty::BorderBottomWidth(CssPropertyValue::Exact(input)),
    {
        CssProperty::BorderBottomWidth(CssPropertyValue::Exact(input))
    }

    /// A `box_shadow_left` declaration with an exact value.
    pub fn box_shadow_left(input: StyleBoxShadow) -> (r: Self)
        ensures
            r == CssProperty::BoxShadowLeft(CssPropertyValue::Exact(input)),
    {
        CssProperty::BoxShadowLeft(CssPropertyValue::Exact(input))
    }

    /// A `box_shadow_right` declaration with an exact value.
    pub fn box_shadow_right(input: StyleBoxShadow) -> (r: Self)
        ensures
            r == CssProperty::BoxShadowRight(CssPropertyValue::Exact(input)),
    {
        CssProperty::BoxShadowRight(CssPropertyValue::Exact(input))
    }

    /// A `box_shadow_top` declaration with an exact value.
    pub fn box_shadow_top(input: StyleBoxShadow) -> (r: Self)
        ensures
            r == CssProperty::BoxShadowTop(CssPropertyValue::Exact(input)),
    {
        CssProperty::BoxShadowTop(CssPropertyValue::Exact(input))
    }

    /// A `box_shadow_bottom` declaration with an exact value.
    pub fn box_shadow_bottom(input: StyleBoxShadow) -> (r: Self)
        ensures
            r == CssProperty::BoxShadowBottom(CssPropertyValue::Exact(input)),
    {
        CssProperty::BoxShadowBottom(CssPropertyValue::Exact(input))
    }

    /// A `opacity` declaration with an exact value.
    pub fn opacity(input: StyleOpacity) -> (r: Self)
        ensures
            r == CssProperty::Opacity(CssPropertyValue::Exact(input)),
    {
        CssProperty::Opacity(CssPropertyValue::Exact(input))
    }

    /// A `transform` declaration with an exact value.
    pub fn transform(input: StyleTransformVec) -> (r: Self)
        ensures
            r == CssProperty::Transform(CssPropertyValue::Exact(input)),
    {
        CssProperty::Transform(CssPropertyValue::Exact(input))
    }

    /// A `transform-origin` declaration with an exact value.
    pub fn transform_origin(input: StyleTransformOrigin) -> (r: Self)
        ensures
            r == CssProperty::TransformOrigin(CssPropertyValue::Exact(input)),
    {
        CssProperty::TransformOrigin(CssPropertyValue::Exact(input))
    }

    /// A `perspective-origin` declaration with an exact value.
    pub fn perspective_origin(input: StylePerspectiveOrigin) -> (r: Self)
        ensures
            r == CssProperty::PerspectiveOrigin(CssPropertyValue::Exact(input)),
    {
        CssProperty::PerspectiveOrigin(CssPropertyValue::Exact(input))
    }

    /// A `backface-visibility` declaration with an exact value.
    pub fn backface_visiblity(input: StyleBackfaceVisibility) -> (r: Self)
        ensures
            r == CssProperty::BackfaceVisibility(CssPropertyValue::Exact(input)),
    {
        CssProperty::BackfaceVisibility(CssPropertyValue::Exact(input))
    }
}

// Each value type converts into the declaration of its property, with an
// exact value.
impl From<StyleTextColor> for CssProperty {
    fn from(e: StyleTextColor) -> (r: Self)
        ensures
            r == CssProperty::TextColor(CssPropertyValue::Exact(e)),
    {
        CssProperty::TextColor(CssPropertyValue::Exact(e))
    }
}

impl vstd::std_specs::convert::FromSpecImpl<StyleTextColor> for CssProperty {
    open spec fn obeys_from_spec() -> bool {
        true
    }

    open spec fn from_spec(v: StyleTextColor) -> Self {
        CssProperty::TextColor(CssPropertyValue::Exact(v))
    }
}

impl From<StyleFontSize> for CssProperty {
    fn from(e: StyleFontSize) -> (r: Self)
        ensures
            r == CssProperty::FontSize(CssPropertyValue::Exact(e)),
    {
        CssProperty::FontSize(CssPropertyValue::Exact(e))
    }
}

impl vstd::std_specs::convert::FromSpecImpl<StyleFontSize> for CssProperty {
    open spec fn obeys_from_spec() -> bool {
        true
    }

    open spec fn from_spec(v: StyleFontSize) -> Self {
        CssProperty::FontSize(CssPropertyValue::Exact(v))
    }
}

impl From<StyleFontFamily> for CssProperty {
    fn from(e: StyleFontFamily) -> (r: Self)
        ensures
            r == CssProperty::FontFamily(CssPropertyValue::Exact(e)),
    {
        CssProperty::FontFamily(CssPropertyValue::Exact(e))
    }
}

impl vstd::std_specs::convert::FromSpecImpl<StyleFontFamily> for CssProperty {
    open spec fn obeys_from_spec() -> bool {
        true
    }

    open spec fn from_spec(v: StyleFontFamily) -> Self {
        CssProperty::FontFamily(CssPropertyValue::Exact(v))
    }
}

impl From<StyleTextAlignmentHorz> for CssProperty {
    fn from(e: StyleTextAlignmentHorz) -> (r: Self)
        ensures
            r == CssProperty::TextAlign(CssPropertyValue::Exact(e)),
    {
        CssProperty::TextAlign(CssPropertyValue::Exact(e))
    }
}

impl vstd::std_specs::convert::FromSpecImpl<StyleTextAlignmentHorz> for CssProperty {
    open spec fn obeys_from_spec() -> bool {
        true
    }

    open spec fn from_spec(v: StyleTextAlignmentHorz) -> Self {
        CssProperty::TextAlign(CssPropertyValue::Exact(v))
    }
}

impl From<StyleLetterSpacing> for CssProperty {
    fn from(e: StyleLetterSpacing) -> (r: Self)
        ensures
            r == CssProperty::LetterSpacing(CssPropertyValue::Exact(e)),
    {
        CssProperty::LetterSpacing(CssPropertyValue::Exact(e))
    }
}

impl vstd::std_specs::convert::FromSpecImpl<StyleLetterSpacing> for CssProperty {
    open spec fn obeys_from_spec() -> bool {
        true
    }

    open spec fn from_spec(v: StyleLetterSpacing) -> Self {
        CssProperty::LetterSpacing(CssPropertyValue::Exact(v))
    }
}

impl From<StyleLineHeight> for CssProperty {
    fn from(e: StyleLineHeight) -> (r: Self)
        ensures
            r == CssProperty::LineHeight(CssPropertyValue::Exact(e)),
    {
        CssProperty::LineHeight(CssPropertyValue::Exact(e))
    }
}

impl vstd::std_specs::convert::FromSpecImpl<StyleLineHeight> for CssProperty {
    open spec fn obeys_from_spec() -> bool {
        true
    }

    open spec fn from_spec(v: StyleLineHeight) -> Self {
        CssProperty::LineHeight(CssPropertyValue::Exact(v))
    }
}

impl From<StyleWordSpacing> for CssProperty {
    fn from(e: StyleWordSpacing) -> (r: Self)
        ensures
            r == CssProperty::WordSpacing(CssPropertyValue::Exact(e)),
    {
        CssProperty::WordSpacing(CssPropertyValue::Exact(e))
    }
}

impl vstd::std_specs::convert::FromSpecImpl<StyleWordSpacing> for CssProperty {
    open spec fn obeys_from_spec() -> bool {
        true
    }

    open spec fn from_spec(v: StyleWordSpacing) -> Self {
        CssProperty::WordSpacing(CssPropertyValue::Exact(v))
    }
}

impl From<StyleTabWidth> for CssProperty {
    fn from(e: StyleTabWidth) -> (r: Self)
        ensures
            r == CssProperty::TabWidth(CssPropertyValue::Exact(e)),
    {
        CssProperty::TabWidth(CssPropertyValue::Exact(e))
    }
}

impl vstd::std_specs::convert::FromSpecImpl<StyleTabWidth> for CssProperty {
    open spec fn obeys_from_spec() -> bool {
        true
    }

    open spec fn from_spec(v: StyleTabWidth) -> Self {
        CssProperty::TabWidth(CssPropertyValue::Exact(v))
    }
}

impl From<StyleCursor> for CssProperty {
    fn from(e: StyleCursor) -> (r: Self)
        ensures
            r == CssProperty::Cursor(CssPropertyValue::Exact(e)),
    {
        CssProperty::Cursor(CssPropertyValue::Exact(e))
    }
}

impl vstd::std_specs::convert::FromSpecImpl<StyleCursor> for CssProperty {
    open spec fn obeys_from_spec() -> bool {
        true
    }

    open spec fn from_spec(v: StyleCursor) -> Self {
        CssProperty::Cursor(CssPropertyValue::Exact(v))
    }
}

impl From<LayoutDisplay> for CssProperty {
    fn from(e: LayoutDisplay) -> (r: Self)
        ensures
            r == CssProperty::Display(CssPropertyValue::Exact(e)),
    {
        CssProperty::Display(CssPropertyValue::Exact(e))
    }
}

impl vstd::std_specs::convert::FromSpecImpl<LayoutDisplay> for CssProperty {
    open spec fn obeys_from_spec() -> bool {
        true
    }

    open spec fn from_spec(v: LayoutDisplay) -> Self {
        CssProperty::Display(CssPropertyValue::Exact(v))
    }
}

impl From<LayoutFloat> for CssProperty {
    fn from(e: LayoutFloat) -> (r: Self)
        ensures
            r == CssProperty::Float(CssPropertyValue::Exact(e)),
    {
        CssProperty::Float(CssPropertyValue::Exact(e))
    }
}

impl vstd::std_specs::convert::FromSpecImpl<LayoutFloat> for CssProperty {
    open spec fn obeys_from_spec() -> bool {
        true
    }

    open spec fn from_spec(v: LayoutFloat) -> Self {
        CssProperty::Float(CssPropertyValue::Exact(v))
    }
}

impl From<LayoutBoxSizing> for CssProperty {
    fn from(e: LayoutBoxSizing) -> (r: Self)
        ensures
            r == CssProperty::BoxSizing(CssPropertyValue::Exact(e)),
    {
        CssProperty::BoxSizing(CssPropertyValue::Exact(e))
    }
}

impl vstd::std_specs::convert::FromSpecImpl<LayoutBoxSizing> for CssProperty {
    open spec fn obeys_from_spec() -> bool {
        true
    }

    open spec fn from_spec(v: LayoutBoxSizing) -> Self {
        CssProperty::BoxSizing(CssPropertyValue::Exact(v))
    }
}

impl From<LayoutWidth> for CssProperty {
    fn from(e: LayoutWidth) -> (r: Self)
        ensures
            r == CssProperty::Width(CssPropertyValue::Exact(e)),
    {
        CssProperty::Width(CssPropertyValue::Exact(e))
    }
}

impl vstd::std_specs::convert::FromSpecImpl<LayoutWidth> for CssProperty {
    open spec fn obeys_from_spec() -> bool {
        true
    }

    open spec fn from_spec(v: LayoutWidth) -> Self {
        CssProperty::Width(CssPropertyValue::Exact(v))
    }
}

impl From<LayoutHeight> for CssProperty {
    fn from(e: LayoutHeight) -> (r: Self)
        ensures
            r == CssProperty::Height(CssPropertyValue::Exact(e)),
    {
        CssProperty::Height(CssPropertyValue::Exact(e))
    }
}

impl vstd::std_specs::convert::FromSpecImpl<LayoutHeight> for CssProperty {
    open spec fn obeys_from_spec() -> bool {
        true
    }

    open spec fn from_spec(v: LayoutHeight) -> Self {
        CssProperty::Height(CssPropertyValue::Exact(v))
    }
}

impl From<LayoutMinWidth> for CssProperty {
    fn from(e: LayoutMinWidth) -> (r: Self)
        ensures
            r == CssProperty::MinWidth(CssPropertyValue::Exact(e)),
    {
        CssProperty::MinWidth(CssPropertyValue::Exact(e))
    }
}

impl vstd::std_specs::convert::FromSpecImpl<LayoutMinWidth> for CssProperty {
    open spec fn obeys_from_spec() -> bool {
        true
    }

    open spec fn from_spec(v: LayoutMinWidth) -> Self {
        CssProperty::MinWidth(CssPropertyValue::Exact(v))
    }
}

impl From<LayoutMinHeight> for CssProperty {
    fn from(e: LayoutMinHeight) -> (r: Self)
        ensures
            r == CssProperty::MinHeight(CssPropertyValue::Exact(e)),
    {
        CssProperty::MinHeight(CssPropertyValue::Exact(e))
    }
}

impl vstd::std_specs::convert::FromSpecImpl<LayoutMinHeight> for CssProperty {
    open spec fn obeys_from_spec() -> bool {
        true
    }

    open spec fn from_spec(v: LayoutMinHeight) -> Self {
        CssProperty::MinHeight(CssPropertyValue::Exact(v))
    }
}

impl From<LayoutMaxWidth> for CssProperty {
    fn from(e: LayoutMaxWidth) -> (r: Self)
        ensures
            r == CssProperty::MaxWidth(CssPropertyValue::Exact(e)),
    {
        CssProperty::MaxWidth(CssPropertyValue::Exact(e))
    }
}

impl vstd::std_specs::convert::FromSpecImpl<LayoutMaxWidth> for CssProperty {
    open spec fn obeys_from_spec() -> bool {
        true
    }

    open spec fn from_spec(v: LayoutMaxWidth) -> Self {
        CssProperty::MaxWidth(CssPropertyValue::Exact(v))
    }
}

impl From<LayoutMaxHeight> for CssProperty {
    fn from(e: LayoutMaxHeight) -> (r: Self)
        ensures
            r == CssProperty::MaxHeight(CssPropertyValue::Exact(e)),
    {
        CssProperty::MaxHeight(CssPropertyValue::Exact(e))
    }
}

impl vstd::std_specs::convert::FromSpecImpl<LayoutMaxHeight> for CssProperty {
    open spec fn obeys_from_spec() -> bool {
        true
    }

    open spec fn from_spec(v: LayoutMaxHeight) -> Self {
        CssProperty::MaxHeight(CssPropertyValue::Exact(v))
    }
}

impl From<LayoutPosition> for CssProperty {
    fn from(e: LayoutPosition) -> (r: Self)
        ensures
            r == CssProperty::Position(CssPropertyValue::Exact(e)),
    {
        CssProperty::Position(CssPropertyValue::Exact(e))
    }
}

impl vstd::std_specs::convert::FromSpecImpl<LayoutPosition> for CssProperty {
    open spec fn obeys_from_spec() -> bool {
        true
    }

    open spec fn from_spec(v: LayoutPosition) -> Self {
        CssProperty::Position(CssPropertyValue::Exact(v))
    }
}

impl From<LayoutTop> for CssProperty {
    fn from(e: LayoutTop) -> (r: Self)
        ensures
            r == CssProperty::Top(CssPropertyValue::Exact(e)),
    {
        CssProperty::Top(CssPropertyValue::Exact(e))
    }
}

impl vstd::std_specs::convert::FromSpecImpl<LayoutTop> for CssProperty {
    open spec fn obeys_from_spec() -> bool {
        true
    }

    open spec fn from_spec(v: LayoutTop) -> Self {
        CssProperty::Top(CssPropertyValue::Exact(v))
    }
}

impl From<LayoutRight> for CssProperty {
    fn from(e: LayoutRight) -> (r: Self)
        ensures
            r == CssProperty::Right(CssPropertyValue::Exact(e)),
    {
        CssProperty::Right(CssPropertyValue::Exact(e))
    }
}

impl vstd::std_specs::convert::FromSpecImpl<LayoutRight> for CssProperty {
    open spec fn obeys_from_spec() -> bool {
        true
    }

    open spec fn from_spec(v: LayoutRight) -> Self {
        CssProperty::Right(CssPropertyValue::Exact(v))
    }
}

impl From<LayoutLeft> for CssProperty {
    fn from(e: LayoutLeft) -> (r: Self)
        ensures
            r == CssProperty::Left(CssPropertyValue::Exact(e)),
    {
        CssProperty::Left(CssPropertyValue::Exact(e))
    }
}

impl vstd::std_specs::convert::FromSpecImpl<LayoutLeft> for CssProperty {
    open spec fn obeys_from_spec() -> bool {
        true
    }

    open spec fn from_spec(v: LayoutLeft) -> Self {
        CssProperty::Left(CssPropertyValue::Exact(v))
    }
}

impl From<LayoutBottom> for CssProperty {
    fn from(e: LayoutBottom) -> (r: Self)
        ensures
            r == CssProperty::Bottom(CssPropertyValue::Exact(e)),
    {
        CssProperty::Bottom(CssPropertyValue::Exact(e))
    }
}

impl vstd::std_specs::convert::FromSpecImpl<LayoutBottom> for CssProperty {
    open spec fn obeys_from_spec() -> bool {
        true
    }

    open spec fn from_spec(v: LayoutBottom) -> Self {
        CssProperty::Bottom(CssPropertyValue::Exact(v))
    }
}

impl From<LayoutWrap> for CssProperty {
    fn from(e: LayoutWrap) -> (r: Self)
        ensures
            r == CssProperty::FlexWrap(CssPropertyValue::Exact(e)),
    {
        CssProperty::FlexWrap(CssPropertyValue::Exact(e))
    }
}

impl vstd::std_specs::convert::FromSpecImpl<LayoutWrap> for CssProperty {
    open spec fn obeys_from_spec() -> bool {
        true
    }

    open spec fn from_spec(v: LayoutWrap) -> Self {
        CssProperty::FlexWrap(CssPropertyValue::Exact(v))
    }
}

impl From<LayoutFlexDirection> for CssProperty {
    fn from(e: LayoutFlexDirection) -> (r: Self)
        ensures
            r == CssProperty::FlexDirection(CssPropertyValue::Exact(e)),
    {
        CssProperty::FlexDirection(CssPropertyValue::Exact(e))
    }
}

impl vstd::std_specs::convert::FromSpecImpl<LayoutFlexDirection> for CssProperty {
    open spec fn obeys_from_spec() -> bool {
        true
    }

    open spec fn from_spec(v: LayoutFlexDirection) -> Self {
        CssProperty::FlexDirection(CssPropertyValue::Exact(v))
    }
}

impl From<LayoutFlexGrow> for CssProperty {
    fn from(e: LayoutFlexGrow) -> (r: Self)
        ensures
            r == CssProperty::FlexGrow(CssPropertyValue::Exact(e)),
    {
        CssProperty::FlexGrow(CssPropertyValue::Exact(e))
    }
}

impl vstd::std_specs::convert::FromSpecImpl<LayoutFlexGrow> for CssProperty {
    open spec fn obeys_from_spec() -> bool {
        true
    }

    open spec fn from_spec(v: LayoutFlexGrow) -> Self {
        CssProperty::FlexGrow(CssPropertyValue::Exact(v))
    }
}

impl From<LayoutFlexShrink> for CssProperty {
    fn from(e: LayoutFlexShrink) -> (r: Self)
        ensures
            r == CssProperty::FlexShrink(CssPropertyValue::Exact(e)),
    {
        CssProperty::FlexShrink(CssPropertyValue::Exact(e))
    }
}

impl vstd::std_specs::convert::FromSpecImpl<LayoutFlexShrink> for CssProperty {
    open spec fn obeys_from_spec() -> bool {
        true
    }

    open spec fn from_spec(v: LayoutFlexShrink) -> Self {
        CssProperty::FlexShrink(CssPropertyValue::Exact(v))
    }
}

impl From<LayoutJustifyContent> for CssProperty {
    fn from(e: LayoutJustifyContent) -> (r: Self)
        ensures
            r == CssProperty::JustifyContent(CssPropertyValue::Exact(e)),
    {
        CssProperty::JustifyContent(CssPropertyValue::Exact(e))
    }
}

impl vstd::std_specs::convert::FromSpecImpl<LayoutJustifyContent> for CssProperty {
    open spec fn obeys_from_spec() -> bool {
        true
    }

    open spec fn from_spec(v: LayoutJustifyContent) -> Self {
        CssProperty::JustifyContent(CssPropertyValue::Exact(v))
    }
}

impl From<LayoutAlignItems> for CssProperty {
    fn from(e: LayoutAlignItems) -> (r: Self)
        ensures
            r == CssProperty::AlignItems(CssPropertyValue::Exact(e)),
    {
        CssProperty::AlignItems(CssPropertyValue::Exact(e))
    }
}

impl vstd::std_specs::convert::FromSpecImpl<LayoutAlignItems> for CssProperty {
    open spec fn obeys_from_spec() -> bool {
        true
    }

    open spec fn from_spec(v: LayoutAlignItems) -> Self {
        CssProperty::AlignItems(CssPropertyValue::Exact(v))
    }
}

impl From<LayoutAlignContent> for CssProperty {
    fn from(e: LayoutAlignContent) -> (r: Self)
        ensures
            r == CssProperty::AlignContent(CssPropertyValue::Exact(e)),
    {
        CssProperty::AlignContent(CssPropertyValue::Exact(e))
    }
}

impl vstd::std_specs::convert::FromSpecImpl<LayoutAlignContent> for CssProperty {
    open spec fn obeys_from_spec() -> bool {
        true
    }

    open spec fn from_spec(v: LayoutAlignContent) -> Self {
        CssProperty::AlignContent(CssPropertyValue::Exact(v))
    }
}

impl From<StyleBackgroundContentVec> for CssProperty {
    fn from(e: StyleBackgroundContentVec) -> (r: Self)
        ensures
            r == CssProperty::BackgroundContent(CssPropertyValue::Exact(e)),
    {
        CssProperty::BackgroundContent(CssPropertyValue::Exact(e))
    }
}

impl vstd::std_specs::convert::FromSpecImpl<StyleBackgroundContentVec> for CssProperty {
    open spec fn obeys_from_spec() -> bool {
        true
    }

    open spec fn from_spec(v: StyleBackgroundContentVec) -> Self {
        CssProperty::BackgroundContent(CssPropertyValue::Exact(v))
    }
}

impl From<StyleBackgroundPositionVec> for CssProperty {
    fn from(e: StyleBackgroundPositionVec) -> (r: Self)
        ensures
            r == CssProperty::BackgroundPosition(CssPropertyValue::Exact(e)),
    {
        CssProperty::BackgroundPosition(CssPropertyValue::Exact(e))
    }
}

impl vstd::std_specs::convert::FromSpecImpl<StyleBackgroundPositionVec> for CssProperty {
    open spec fn obeys_from_spec() -> bool {
        true
    }

    open spec fn from_spec(v: StyleBackgroundPositionVec) -> Self {
        CssProperty::BackgroundPosition(CssPropertyValue::Exact(v))
    }
}

impl From<StyleBackgroundSizeVec> for CssProperty {
    fn from(e: StyleBackgroundSizeVec) -> (r: Self)
        ensures
            r == CssProperty::BackgroundSize(CssPropertyValue::Exact(e)),
    {
        CssProperty::BackgroundSize(CssPropertyValue::Exact(e))
    }
}

impl vstd::std_specs::convert::FromSpecImpl<StyleBackgroundSizeVec> for CssProperty {
    open spec fn obeys_from_spec() -> bool {
        true
    }

    open spec fn from_spec(v: StyleBackgroundSizeVec) -> Self {
        CssProperty::BackgroundSize(CssPropertyValue::Exact(v))
    }
}

impl From<StyleBackgroundRepeatVec> for CssProperty {
    fn from(e: StyleBackgroundRepeatVec) -> (r: Self)
        ensures
            r == CssProperty::BackgroundRepeat(CssPropertyValue::Exact(e)),
    {
        CssProperty::BackgroundRepeat(CssPropertyValue::Exact(e))
    }
}

impl vstd::std_specs::convert::FromSpecImpl<StyleBackgroundRepeatVec> for CssProperty {
    open spec fn obeys_from_spec() -> bool {
        true
    }

    open spec fn from_spec(v: StyleBackgroundRepeatVec) -> Self {
        CssProperty::BackgroundRepeat(CssPropertyValue::Exact(v))
    }
}

impl From<LayoutPaddingTop> for CssProperty {
    fn from(e: LayoutPaddingTop) -> (r: Self)
        ensures
            r == CssProperty::PaddingTop(CssPropertyValue::Exact(e)),
    {
        CssProperty::PaddingTop(CssPropertyValue::Exact(e))
    }
}

impl vstd::std_specs::convert::FromSpecImpl<LayoutPaddingTop> for CssProperty {
    open spec fn obeys_from_spec() -> bool {
        true
    }

    open spec fn from_spec(v: LayoutPaddingTop) -> Self {
        CssProperty::PaddingTop(CssPropertyValue::Exact(v))
    }
}

impl From<LayoutPaddingLeft> for CssProperty {
    fn from(e: LayoutPaddingLeft) -> (r: Self)
        ensures
            r == CssProperty::PaddingLeft(CssPropertyValue::Exact(e)),
    {
        CssProperty::PaddingLeft(CssPropertyValue::Exact(e))
    }
}

impl vstd::std_specs::convert::FromSpecImpl<LayoutPaddingLeft> for CssProperty {
    open spec fn obeys_from_spec() -> bool {
        true
    }

    open spec fn from_spec(v: LayoutPaddingLeft) -> Self {
        CssProperty::PaddingLeft(CssPropertyValue::Exact(v))
    }
}

impl From<LayoutPaddingRight> for CssProperty {
    fn from(e: LayoutPaddingRight) -> (r: Self)
        ensures
            r == CssProperty::PaddingRight(CssPropertyValue::Exact(e)),
    {
        CssProperty::PaddingRight(CssPropertyValue::Exact(e))
    }
}

impl vstd::std_specs::convert::FromSpecImpl<LayoutPaddingRight> for CssProperty {
    open spec fn obeys_from_spec() -> bool {
        true
    }

    open spec fn from_spec(v: LayoutPaddingRight) -> Self {
        CssProperty::PaddingRight(CssPropertyValue::Exact(v))
    }
}

impl From<LayoutPaddingBottom> for CssProperty {
    fn from(e: LayoutPaddingBottom) -> (r: Self)
        ensures
            r == CssProperty::PaddingBottom(CssPropertyValue::Exact(e)),
    {
        CssProperty::PaddingBottom(CssPropertyValue::Exact(e))
    }
}

impl vstd::std_specs::convert::FromSpecImpl<LayoutPaddingBottom> for CssProperty {
    open spec fn obeys_from_spec() -> bool {
        true
    }

    open spec fn from_spec(v: LayoutPaddingBottom) -> Self {
        CssProperty::PaddingBottom(CssPropertyValue::Exact(v))
    }
}

impl From<LayoutMarginTop> for CssProperty {
    fn from(e: LayoutMarginTop) -> (r: Self)
        ensures
            r == CssProperty::MarginTop(CssPropertyValue::Exact(e)),
    {
        CssProperty::MarginTop(CssPropertyValue::Exact(e))
    }
}

impl vstd::std_specs::convert::FromSpecImpl<LayoutMarginTop> for CssProperty {
    open spec fn obeys_from_spec() -> bool {
        true
    }

    open spec fn from_spec(v: LayoutMarginTop) -> Self {
        CssProperty::MarginTop(CssPropertyValue::Exact(v))
    }
}

impl From<LayoutMarginLeft> for CssProperty {
    fn from(e: LayoutMarginLeft) -> (r: Self)
        ensures
            r == CssProperty::MarginLeft(CssPropertyValue::Exact(e)),
    {
        CssProperty::MarginLeft(CssPropertyValue::Exact(e))
    }
}

impl vstd::std_specs::convert::FromSpecImpl<LayoutMarginLeft> for CssProperty {
    open spec fn obeys_from_spec() -> bool {
        true
    }

    open spec fn from_spec(v: LayoutMarginLeft) -> Self {
        CssProperty::MarginLeft(CssPropertyValue::Exact(v))
    }
}

impl From<LayoutMarginRight> for CssProperty {
    fn from(e: LayoutMarginRight) -> (r: Self)
        ensures
            r == CssProperty::MarginRight(CssPropertyValue::Exact(e)),
    {
        CssProperty::MarginRight(CssPropertyValue::Exact(e))
    }
}

impl vstd::std_specs::convert::FromSpecImpl<LayoutMarginRight> for CssProperty {
    open spec fn obeys_from_spec() -> bool {
        true
    }

    open spec fn from_spec(v: LayoutMarginRight) -> Self {
        CssProperty::MarginRight(CssPropertyValue::Exact(v))
    }
}

impl From<LayoutMarginBottom> for CssProperty {
    fn from(e: LayoutMarginBottom) -> (r: Self)
        ensures
            r == CssProperty::MarginBottom(CssPropertyValue::Exact(e)),
    {
        CssProperty::MarginBottom(CssPropertyValue::Exact(e))
    }
}

impl vstd::std_specs::convert::FromSpecImpl<LayoutMarginBottom> for CssProperty {
    open spec fn obeys_from_spec() -> bool {
        true
    }

    open spec fn from_spec(v: LayoutMarginBottom) -> Self {
        CssProperty::MarginBottom(CssPropertyValue::Exact(v))
    }
}

impl From<StyleBorderTopLeftRadius> for CssProperty {
    fn from(e: StyleBorderTopLeftRadius) -> (r: Self)
        ensures
            r == CssProperty::BorderTopLeftRadius(CssPropertyValue::Exact(e)),
    {
        CssProperty::BorderTopLeftRadius(CssPropertyValue::Exact(e))
    }
}

impl vstd::std_specs::convert::FromSpecImpl<StyleBorderTopLeftRadius> for CssProperty {
    open spec fn obeys_from_spec() -> bool {
        true
    }

    open spec fn from_spec(v: StyleBorderTopLeftRadius) -> Self {
        CssProperty::BorderTopLeftRadius(CssPropertyValue::Exact(v))
    }
}

impl From<StyleBorderTopRightRadius> for CssProperty {
    fn from(e: StyleBorderTopRightRadius) -> (r: Self)
        ensures
            r == CssProperty::BorderTopRightRadius(CssPropertyValue::Exact(e)),
    {
        CssProperty::BorderTopRightRadius(CssPropertyValue::Exact(e))
    }
}

impl vstd::std_specs::convert::FromSpecImpl<StyleBorderTopRightRadius> for CssProperty {
    open spec fn obeys_from_spec() -> bool {
        true
    }

    open spec fn from_spec(v: StyleBorderTopRightRadius) -> Self {
        CssProperty::BorderTopRightRadius(CssPropertyValue::Exact(v))
    }
}

impl From<StyleBorderBottomLeftRadius> for CssProperty {
    fn from(e: StyleBorderBottomLeftRadius) -> (r: Self)
        ensures
            r == CssProperty::BorderBottomLeftRadius(CssPropertyValue::Exact(e)),
    {
        CssProperty::BorderBottomLeftRadius(CssPropertyValue::Exact(e))
    }
}

impl vstd::std_specs::convert::FromSpecImpl<StyleBorderBottomLeftRadius> for CssProperty {
    open spec fn obeys_from_spec() -> bool {
        true
    }

    open spec fn from_spec(v: StyleBorderBottomLeftRadius) -> Self {
        CssProperty::BorderBottomLeftRadius(CssPropertyValue::Exact(v))
    }
}

impl From<StyleBorderBottomRightRadius> for CssProperty {
    fn from(e: StyleBorderBottomRightRadius) -> (r: Self)
        ensures
            r == CssProperty::BorderBottomRightRadius(CssPropertyValue::Exact(e)),
    {
        CssProperty::BorderBottomRightRadius(CssPropertyValue::Exact(e))
    }
}

impl vstd::std_specs::convert::FromSpecImpl<StyleBorderBottomRightRadius> for CssProperty {
    open spec fn obeys_from_spec() -> bool {
        true
    }

    open spec fn from_spec(v: StyleBorderBottomRightRadius) -> Self {
        CssProperty::BorderBottomRightRadius(CssPropertyValue::Exact(v))
    }
}

impl From<StyleBorderTopColor> for CssProperty {
    fn from(e: StyleBorderTopColor) -> (r: Self)
        ensures
            r == CssProperty::BorderTopColor(CssPropertyValue::Exact(e)),
    {
        CssProperty::BorderTopColor(CssPropertyValue::Exact(e))
    }
}

impl vstd::std_specs::convert::FromSpecImpl<StyleBorderTopColor> for CssProperty {
    open spec fn obeys_from_spec() -> bool {
        true
    }

    open spec fn from_spec(v: StyleBorderTopColor) -> Self {
        CssProperty::BorderTopColor(CssPropertyValue::Exact(v))
    }
}

impl From<StyleBorderRightColor> for CssProperty {
    fn from(e: StyleBorderRightColor) -> (r: Self)
        ensures
            r == CssProperty::BorderRightColor(CssPropertyValue::Exact(e)),
    {
        CssProperty::BorderRightColor(CssPropertyValue::Exact(e))
    }
}

impl vstd::std_specs::convert::FromSpecImpl<StyleBorderRightColor> for CssProperty {
    open spec fn obeys_from_spec() -> bool {
        true
    }

    open spec fn from_spec(v: StyleBorderRightColor) -> Self {
        CssProperty::BorderRightColor(CssPropertyValue::Exact(v))
    }
}

impl From<StyleBorderLeftColor> for CssProperty {
    fn from(e: StyleBorderLeftColor) -> (r: Self)
        ensures
            r == CssProperty::BorderLeftColor(CssPropertyValue::Exact(e)),
    {
        CssProperty::BorderLeftColor(CssPropertyValue::Exact(e))
    }
}

impl vstd::std_specs::convert::FromSpecImpl<StyleBorderLeftColor> for CssProperty {
    open spec fn obeys_from_spec() -> bool {
        true
    }

    open spec fn from_spec(v: StyleBorderLeftColor) -> Self {
        CssProperty::BorderLeftColor(CssPropertyValue::Exact(v))
    }
}

impl From<StyleBorderBottomColor> for CssProperty {
    fn from(e: StyleBorderBottomColor) -> (r: Self)
        ensures
            r == CssProperty::BorderBottomColor(CssPropertyValue::Exact(e)),
    {
        CssProperty::BorderBottomColor(CssPropertyValue::Exact(e))
    }
}

impl vstd::std_specs::convert::FromSpecImpl<StyleBorderBottomColor> for CssProperty {
    open spec fn obeys_from_spec() -> bool {
        true
    }

    open spec fn from_spec(v: StyleBorderBottomColor) -> Self {
        CssProperty::BorderBottomColor(CssPropertyValue::Exact(v))
    }
}

impl From<StyleBorderTopStyle> for CssProperty {
    fn from(e: StyleBorderTopStyle) -> (r: Self)
        ensures
            r == CssProperty::BorderTopStyle(CssPropertyValue::Exact(e)),
    {
        CssProperty::BorderTopStyle(CssPropertyValue::Exact(e))
    }
}

impl vstd::std_specs::convert::FromSpecImpl<StyleBorderTopStyle> for CssProperty {
    open spec fn obeys_from_spec() -> bool {
        true
    }

    open spec fn from_spec(v: StyleBorderTopStyle) -> Self {
        CssProperty::BorderTopStyle(CssPropertyValue::Exact(v))
    }
}

impl From<StyleBorderRightStyle> for CssProperty {
    fn from(e: StyleBorderRightStyle) -> (r: Self)
        ensures
            r == CssProperty::BorderRightStyle(CssPropertyValue::Exact(e)),
    {
        CssProperty::BorderRightStyle(CssPropertyValue::Exact(e))
    }
}

impl vstd::std_specs::convert::FromSpecImpl<StyleBorderRightStyle> for CssProperty {
    open spec fn obeys_from_spec() -> bool {
        true
    }

    open spec fn from_spec(v: StyleBorderRightStyle) -> Self {
        CssProperty::BorderRightStyle(CssPropertyValue::Exact(v))
    }
}

impl From<StyleBorderLeftStyle> for CssProperty {
    fn from(e: StyleBorderLeftStyle) -> (r: Self)
        ensures
            r == CssProperty::BorderLeftStyle(CssPropertyValue::Exact(e)),
    {
        CssProperty::BorderLeftStyle(CssPropertyValue::Exact(e))
    }
}

impl vstd::std_specs::convert::FromSpecImpl<StyleBorderLeftStyle> for CssProperty {
    open spec fn obeys_from_spec() -> bool {
        true
    }

    open spec fn from_spec(v: StyleBorderLeftStyle) -> Self {
        CssProperty::BorderLeftStyle(CssPropertyValue::Exact(v))
    }
}

impl From<StyleBorderBottomStyle> for CssProperty {
    fn from(e: StyleBorderBottomStyle) -> (r: Self)
        ensures
            r == CssProperty::BorderBottomStyle(CssPropertyValue::Exact(e)),
    {
        CssProperty::BorderBottomStyle(CssPropertyValue::Exact(e))
    }
}

impl vstd::std_specs::convert::FromSpecImpl<StyleBorderBottomStyle> for CssProperty {
    open spec fn obeys_from_spec() -> bool {
        true
    }

    open spec fn from_spec(v: StyleBorderBottomStyle) -> Self {
        CssProperty::BorderBottomStyle(CssPropertyValue::Exact(v))
    }
}

impl From<StyleBorderTopWidth> for CssProperty {
    fn from(e: StyleBorderTopWidth) -> (r: Self)
        ensures
            r == CssProperty::BorderTopWidth(CssPropertyValue::Exact(e)),
    {
        CssProperty::BorderTopWidth(CssPropertyValue::Exact(e))
    }
}

impl vstd::std_specs::convert::FromSpecImpl<StyleBorderTopWidth> for CssProperty {
    open spec fn obeys_from_spec() -> bool {
        true
    }

    open spec fn from_spec(v: StyleBorderTopWidth) -> Self {
        CssProperty::BorderTopWidth(CssPropertyValue::Exact(v))
    }
}

impl From<StyleBorderRightWidth> for CssProperty {
    fn from(e: StyleBorderRightWidth) -> (r: Self)
        ensures
            r == CssProperty::BorderRightWidth(CssPropertyValue::Exact(e)),
    {
        CssProperty::BorderRightWidth(CssPropertyValue::Exact(e))
    }
}

impl vstd::std_specs::convert::FromSpecImpl<StyleBorderRightWidth> for CssProperty {
    open spec fn obeys_from_spec() -> bool {
        true
    }

    open spec fn from_spec(v: StyleBorderRightWidth) -> Self {
        CssProperty::BorderRightWidth(CssPropertyValue::Exact(v))
    }
}

impl From<StyleBorderLeftWidth> for CssProperty {
    fn from(e: StyleBorderLeftWidth) -> (r: Self)
        ensures
            r == CssProperty::BorderLeftWidth(CssPropertyValue::Exact(e)),
    {
        CssProperty::BorderLeftWidth(CssPropertyValue::Exact(e))
    }
}

impl vstd::std_specs::convert::FromSpecImpl<StyleBorderLeftWidth> for CssProperty {
    open spec fn obeys_from_spec() -> bool {
        true
    }

    open spec fn from_spec(v: StyleBorderLeftWidth) -> Self {
        CssProperty::BorderLeftWidth(CssPropertyValue::Exact(v))
    }
}

impl From<StyleBorderBottomWidth> for CssProperty {
    fn from(e: StyleBorderBottomWidth) -> (r: Self)
        ensures
            r == CssProperty::BorderBottomWidth(CssPropertyValue::Exact(e)),
    {
        CssProperty::BorderBottomWidth(CssPropertyValue::Exact(e))
    }
}

impl vstd::std_specs::convert::FromSpecImpl<StyleBorderBottomWidth> for CssProperty {
    open spec fn obeys_from_spec() -> bool {
        true
    }

    open spec fn from_spec(v: StyleBorderBottomWidth) -> Self {
        CssProperty::BorderBottomWidth(CssPropertyValue::Exact(v))
    }
}

impl From<StyleOpacity> for CssProperty {
    fn from(e: StyleOpacity) -> (r: Self)
        ensures
            r == CssProperty::Opacity(CssPropertyValue::Exact(e)),
    {
        CssProperty::Opacity(CssPropertyValue::Exact(e))
    }
}

impl vstd::std_specs::convert::FromSpecImpl<StyleOpacity> for CssProperty {
    open spec fn obeys_from_spec() -> bool {
        true
    }

    open spec fn from_spec(v: StyleOpacity) -> Self {
        CssProperty::Opacity(CssPropertyValue::Exact(v))
    }
}

impl From<StyleTransformVec> for CssProperty {
    fn from(e: StyleTransformVec) -> (r: Self)
        ensures
            r == CssProperty::Transform(CssPropertyValue::Exact(e)),
    {
        CssProperty::Transform(CssPropertyValue::Exact(e))
    }
}

impl vstd::std_specs::convert::FromSpecImpl<StyleTransformVec> for CssProperty {
    open spec fn obeys_from_spec() -> bool {
        true
    }

    open spec fn from_spec(v: StyleTransformVec) -> Self {
        CssProperty::Transform(CssPropertyValue::Exact(v))
    }
}

impl From<StyleTransformOrigin> for CssProperty {
    fn from(e: StyleTransformOrigin) -> (r: Self)
        ensures
            r == CssProperty::TransformOrigin(CssPropertyValue::Exact(e)),
    {
        CssProperty::TransformOrigin(CssPropertyValue::Exact(e))
    }
}

impl vstd::std_specs::convert::FromSpecImpl<StyleTransformOrigin> for CssProperty {
    open spec fn obeys_from_spec() -> bool {
        true
    }

    open spec fn from_spec(v: StyleTransformOrigin) -> Self {
        CssProperty::TransformOrigin(CssPropertyValue::Exact(v))
    }
}

impl From<StylePerspectiveOrigin> for CssProperty {
    fn from(e: StylePerspectiveOrigin) -> (r: Self)
        ensures
            r == CssProperty::PerspectiveOrigin(CssPropertyValue::Exact(e)),
    {
        CssProperty::PerspectiveOrigin(CssPropertyValue::Exact(e))
    }
}

impl vstd::std_specs::convert::FromSpecImpl<StylePerspectiveOrigin> for CssProperty {
    open spec fn obeys_from_spec() -> bool {
        true
    }

    open spec fn from_spec(v: StylePerspectiveOrigin) -> Self {
        CssProperty::PerspectiveOrigin(CssPropertyValue::Exact(v))
    }
}

impl From<StyleBackfaceVisibility> for CssProperty {
    fn from(e: StyleBackfaceVisibility) -> (r: Self)
        ensures
            r == CssProperty::BackfaceVisibility(CssPropertyValue::Exact(e)),
    {
        CssProperty::BackfaceVisibility(CssPropertyValue::Exact(e))
    }
}

impl vstd::std_specs::convert::FromSpecImpl<StyleBackfaceVisibility> for CssProperty {
    open spec fn obeys_from_spec() -> bool {
        true
    }

    open spec fn from_spec(v: StyleBackfaceVisibility) -> Self {
        CssProperty::BackfaceVisibility(CssPropertyValue::Exact(v))
    }
}

/// Building a property from a keyword and asking for its kind gives back the
/// kind it was built from, except for `background` and `background-color`,
/// which share the background layer variant and report `BackgroundImage`.
pub proof fn lemma_keyword_property_type(t: CssPropertyType, k: CssKeyword)
    ensures
        keyword_property(t, k).spec_type() == reported_type(t),
        t != CssPropertyType::Background && t != CssPropertyType::BackgroundColor ==> keyword_property(t, k).spec_type() == t,
{
}

} // verus!
