use azul_css::cascade::{CssProperty, CssPropertyValue};
use azul_css::color::ColorU;
use azul_css::layout::LayoutWidth;
use azul_css::property::{get_css_key_map, CombinedCssPropertyType, CssPropertyType};
use azul_css::style::StyleTextColor;
use azul_css::units::PixelValue;

fn all_types() -> Vec<CssPropertyType> {
    vec![
        CssPropertyType::TextColor,
        CssPropertyType::FontSize,
        CssPropertyType::FontFamily,
        CssPropertyType::TextAlign,
        CssPropertyType::LetterSpacing,
        CssPropertyType::LineHeight,
        CssPropertyType::WordSpacing,
        CssPropertyType::TabWidth,
        CssPropertyType::Cursor,
        CssPropertyType::Display,
        CssPropertyType::Float,
        CssPropertyType::BoxSizing,
        CssPropertyType::Width,
        CssPropertyType::Height,
        CssPropertyType::MinWidth,
        CssPropertyType::MinHeight,
        CssPropertyType::MaxWidth,
        CssPropertyType::MaxHeight,
        CssPropertyType::Position,
        CssPropertyType::Top,
        CssPropertyType::Right,
        CssPropertyType::Left,
        CssPropertyType::Bottom,
        CssPropertyType::FlexWrap,
        CssPropertyType::FlexDirection,
        CssPropertyType::FlexGrow,
        CssPropertyType::FlexShrink,
        CssPropertyType::JustifyContent,
        CssPropertyType::AlignItems,
        CssPropertyType::AlignContent,
        CssPropertyType::OverflowX,
        CssPropertyType::OverflowY,
        CssPropertyType::PaddingTop,
        CssPropertyType::PaddingLeft,
        CssPropertyType::PaddingRight,
        CssPropertyType::PaddingBottom,
        CssPropertyType::MarginTop,
        CssPropertyType::MarginLeft,
        CssPropertyType::MarginRight,
        CssPropertyType::MarginBottom,
        CssPropertyType::Background,
        CssPropertyType::BackgroundImage,
        CssPropertyType::BackgroundColor,
        CssPropertyType::BackgroundPosition,
        CssPropertyType::BackgroundSize,
        CssPropertyType::BackgroundRepeat,
        CssPropertyType::BorderTopLeftRadius,
        CssPropertyType::BorderTopRightRadius,
        CssPropertyType::BorderBottomLeftRadius,
        CssPropertyType::BorderBottomRightRadius,
        CssPropertyType::BorderTopColor,
        CssPropertyType::BorderRightColor,
        CssPropertyType::BorderLeftColor,
        CssPropertyType::BorderBottomColor,
        CssPropertyType::BorderTopStyle,
        CssPropertyType::BorderRightStyle,
        CssPropertyType::BorderLeftStyle,
        CssPropertyType::BorderBottomStyle,
        CssPropertyType::BorderTopWidth,
        CssPropertyType::BorderRightWidth,
        CssPropertyType::BorderLeftWidth,
        CssPropertyType::BorderBottomWidth,
        CssPropertyType::BoxShadowLeft,
        CssPropertyType::BoxShadowRight,
        CssPropertyType::BoxShadowTop,
        CssPropertyType::BoxShadowBottom,
        CssPropertyType::ScrollbarStyle,
        CssPropertyType::Opacity,
        CssPropertyType::Transform,
        CssPropertyType::PerspectiveOrigin,
        CssPropertyType::TransformOrigin,
        CssPropertyType::BackfaceVisibility,
    ]
}

#[test]
fn key_lookup_trims_and_rejects_unknown_keys() {
    let map = get_css_key_map();
    assert_eq!(CssPropertyType::from_str("width", &map), Some(CssPropertyType::Width));
    assert_eq!(CssPropertyType::from_str("  width  ", &map), Some(CssPropertyType::Width));
    assert_eq!(CssPropertyType::from_str("\twidth\n", &map), Some(CssPropertyType::Width));
    assert_eq!(CssPropertyType::from_str("bogus", &map), None);
    assert_eq!(CssPropertyType::from_str("justify-content", &map), Some(CssPropertyType::JustifyContent));
    assert_eq!(CssPropertyType::from_str("asdfasdfasdf", &map), None);
    assert_eq!(CssPropertyType::from_str("border", &map), None);
    assert_eq!(CssPropertyType::from_str("", &map), None);
}

#[test]
fn every_kind_has_one_key_that_maps_back() {
    let map = get_css_key_map();
    assert_eq!(map.non_shorthands.len(), 72);
    for t in all_types() {
        let key = t.to_str(&map);
        assert_eq!(CssPropertyType::from_str(key, &map), Some(t));
        assert_eq!(map.non_shorthands.iter().filter(|(_, v)| *v == t).count(), 1);
    }
    assert_eq!(CssPropertyType::BorderTopWidth.to_str(&map), "border-top-width");
    assert_eq!(CssPropertyType::TextColor.to_str(&map), "color");
}

#[test]
fn shorthand_keys() {
    let map = get_css_key_map();
    assert_eq!(CombinedCssPropertyType::from_str("border", &map), Some(CombinedCssPropertyType::Border));
    assert_eq!(CombinedCssPropertyType::from_str(" margin ", &map), Some(CombinedCssPropertyType::Margin));
    assert_eq!(CombinedCssPropertyType::from_str("width", &map), None);
    assert_eq!(CombinedCssPropertyType::BoxShadow.to_str(&map), "box-shadow");
    assert_eq!(CombinedCssPropertyType::BorderRadius.to_str(&map), "border-radius");
    assert_eq!(map.shorthands.len(), 10);
    for (k, _) in map.shorthands.iter() {
        assert_eq!(CssPropertyType::from_str(k, &map), None);
    }
}

#[test]
fn inheritable_kinds() {
    let expected = [
        CssPropertyType::TextColor,
        CssPropertyType::FontFamily,
        CssPropertyType::FontSize,
        CssPropertyType::LineHeight,
        CssPropertyType::TextAlign,
    ];
    let mut count = 0;
    for t in all_types() {
        assert_eq!(t.is_inheritable(), expected.contains(&t));
        if t.is_inheritable() {
            count += 1;
        }
    }
    assert_eq!(count, 5);
}

#[test]
fn gpu_only_kinds() {
    for t in all_types() {
        assert_eq!(t.is_gpu_only_property(), t == CssPropertyType::Opacity || t == CssPropertyType::Transform);
    }
}

#[test]
fn relayout_kinds() {
    assert!(CssPropertyType::Width.can_trigger_relayout());
    assert!(CssPropertyType::FontSize.can_trigger_relayout());
    assert!(CssPropertyType::BorderTopWidth.can_trigger_relayout());
    assert!(!CssPropertyType::BackgroundColor.can_trigger_relayout());
    assert!(!CssPropertyType::BackgroundImage.can_trigger_relayout());
    assert!(CssPropertyType::PaddingTop.can_trigger_relayout());
    assert!(!CssPropertyType::TextColor.can_trigger_relayout());
    assert!(!CssPropertyType::Cursor.can_trigger_relayout());
    assert!(!CssPropertyType::BorderTopColor.can_trigger_relayout());
    assert!(!CssPropertyType::BoxShadowLeft.can_trigger_relayout());
    assert_eq!(all_types().iter().filter(|t| !t.can_trigger_relayout()).count(), 24);
}

#[test]
fn keyword_properties_report_their_kind() {
    for t in all_types() {
        let expected = if t == CssPropertyType::Background || t == CssPropertyType::BackgroundColor {
            CssPropertyType::BackgroundImage
        } else {
            t
        };
        assert_eq!(CssProperty::none(t).get_type(), expected);
        assert_eq!(CssProperty::auto(t).get_type(), expected);
        assert_eq!(CssProperty::initial(t).get_type(), expected);
        assert_eq!(CssProperty::inherit(t).get_type(), expected);
    }
}

#[test]
fn keyword_properties_hold_the_keyword() {
    assert_eq!(CssProperty::none(CssPropertyType::Width), CssProperty::Width(CssPropertyValue::NoneValue));
    assert_eq!(CssProperty::auto(CssPropertyType::Height), CssProperty::Height(CssPropertyValue::Auto));
    assert_eq!(CssProperty::initial(CssPropertyType::OverflowY), CssProperty::OverflowY(CssPropertyValue::Initial));
    assert_eq!(CssProperty::inherit(CssPropertyType::BackgroundColor), CssProperty::BackgroundContent(CssPropertyValue::Inherit));
}

#[test]
fn named_constructors_hold_exact_values() {
    let w = LayoutWidth { inner: PixelValue::const_px(20) };
    assert_eq!(CssProperty::width(w), CssProperty::Width(CssPropertyValue::Exact(w)));
    assert_eq!(CssProperty::width(w).get_type(), CssPropertyType::Width);
    let c = StyleTextColor { inner: ColorU::red() };
    assert_eq!(CssProperty::text_color(c).get_type(), CssPropertyType::TextColor);
    assert_eq!(CssProperty::background_content(vec![]).get_type(), CssPropertyType::BackgroundImage);
}

#[test]
fn key_lookup_trims_unicode_white_space() {
    let map = get_css_key_map();
    assert_eq!(CssPropertyType::from_str("\u{3000}height\u{a0}", &map), Some(CssPropertyType::Height));
    assert_eq!(CssPropertyType::from_str("\r\nflex-grow \u{2009}", &map), Some(CssPropertyType::FlexGrow));
    assert_eq!(CssPropertyType::from_str("flex -grow", &map), None);
    assert_eq!(CssPropertyType::from_str("Width", &map), None);
    assert_eq!(CombinedCssPropertyType::from_str("\u{85}padding", &map), Some(CombinedCssPropertyType::Padding));
}

#[test]
fn kinds_render_as_their_keys() {
    assert_eq!(CssPropertyType::BorderTopWidth.to_string(), "border-top-width");
    assert_eq!(CssPropertyType::TextColor.to_string(), "color");
    assert_eq!(CssPropertyType::BackfaceVisibility.to_string(), "backface-visibility");
    assert_eq!(CombinedCssPropertyType::BorderLeft.to_string(), "border-left");
}

#[test]
fn values_convert_into_exact_declarations() {
    let w = LayoutWidth { inner: PixelValue::const_px(20) };
    assert_eq!(CssProperty::from(w), CssProperty::Width(CssPropertyValue::Exact(w)));
    let c = StyleTextColor { inner: ColorU::blue() };
    let p: CssProperty = c.into();
    assert_eq!(p, CssProperty::text_color(c));
    assert_eq!(p.get_type(), CssPropertyType::TextColor);
}

#[test]
fn key_map_keys_are_unique_and_disjoint() {
    let map = get_css_key_map();
    for (i, (a, _)) in map.non_shorthands.iter().enumerate() {
        for (j, (b, _)) in map.non_shorthands.iter().enumerate() {
            assert!(i == j || a != b);
        }
        assert!(map.shorthands.iter().all(|(s, _)| s != a));
    }
    for (i, (a, _)) in map.shorthands.iter().enumerate() {
        for (j, (b, _)) in map.shorthands.iter().enumerate() {
            assert!(i == j || a != b);
        }
    }
}
