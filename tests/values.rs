use azul_css::background::{CssImageId, StyleBackgroundContent, StyleBackgroundPosition, BackgroundPositionHorizontal, BackgroundPositionVertical, StyleBackgroundRepeat};
use azul_css::border::{BorderStyle, BorderStyleNoNone, BoxShadowClipMode};
use azul_css::color::ColorU;
use azul_css::layout::{LayoutAxis, LayoutDisplay, LayoutFlexDirection, LayoutFlexGrow, Overflow};
use azul_css::style::{ScrollbarInfo, StyleCursor};
use azul_css::units::{AngleMetric, AngleValue, FloatValue, PercentageValue, PixelSize, PixelValue, SizeMetric};

#[test]
fn whole_numbers_are_stored_in_thousandths() {
    assert_eq!(FloatValue::const_new(3).number, 3000);
    assert_eq!(FloatValue::const_new(-2).number, -2000);
    assert_eq!(FloatValue::default().number, 0);
    assert_eq!(PercentageValue::const_new(50).number.number, 50000);
    assert_eq!(FloatValue::const_new(7), FloatValue::const_new(7));
    assert!(FloatValue::const_new(1) < FloatValue::const_new(2));
}

#[test]
fn pixel_value_constructors() {
    let p = PixelValue::const_px(12);
    assert_eq!(p.metric, SizeMetric::Px);
    assert_eq!(p.number.number, 12000);
    assert_eq!(PixelValue::const_em(2).metric, SizeMetric::Em);
    assert_eq!(PixelValue::const_pt(2).metric, SizeMetric::Pt);
    assert_eq!(PixelValue::const_percent(25).metric, SizeMetric::Percent);
    assert_eq!(PixelValue::const_from_metric(SizeMetric::Pt, 4).number.number, 4000);
    assert_eq!(PixelValue::zero(), PixelValue::const_px(0));
    assert_eq!(PixelValue::default(), PixelValue::zero());
    assert_eq!(SizeMetric::default(), SizeMetric::Px);
    assert_eq!(PixelSize::zero(), PixelSize::new(PixelValue::zero(), PixelValue::zero()));
}

#[test]
fn angle_value_constructors() {
    assert_eq!(AngleValue::zero().metric, AngleMetric::Degree);
    assert_eq!(AngleValue::zero().number.number, 0);
    assert_eq!(AngleValue::const_deg(90).number.number, 90000);
    assert_eq!(AngleValue::const_rad(1).metric, AngleMetric::Radians);
    assert_eq!(AngleValue::const_grad(1).metric, AngleMetric::Grad);
    assert_eq!(AngleValue::const_turn(1).metric, AngleMetric::Turn);
    assert_eq!(AngleValue::const_percent(1).metric, AngleMetric::Percent);
    assert_eq!(AngleMetric::default(), AngleMetric::Degree);
}

#[test]
fn metric_suffixes() {
    assert_eq!(SizeMetric::Px.as_str(), "px");
    assert_eq!(SizeMetric::Pt.as_str(), "pt");
    assert_eq!(SizeMetric::Em.as_str(), "pt");
    assert_eq!(SizeMetric::Percent.as_str(), "%");
    assert_eq!(AngleMetric::Degree.as_str(), "deg");
    assert_eq!(AngleMetric::Radians.as_str(), "rad");
    assert_eq!(AngleMetric::Grad.as_str(), "grad");
    assert_eq!(AngleMetric::Turn.as_str(), "turn");
    assert_eq!(AngleMetric::Percent.as_str(), "%");
}

#[test]
fn color_alpha() {
    assert!(!ColorU::black().has_alpha());
    assert!(ColorU::transparent().has_alpha());
    assert!(ColorU { r: 1, g: 2, b: 3, a: 254 }.has_alpha());
    assert_eq!(ColorU::default(), ColorU::black());
    assert_eq!(ColorU::ALPHA_OPAQUE, 255);
    assert_eq!(ColorU::ALPHA_TRANSPARENT, 0);
}

#[test]
fn color_hash_has_no_padding() {
    assert_eq!(ColorU::red().to_hash(), "#ff00ff");
    assert_eq!(ColorU::black().to_hash(), "#000ff");
    assert_eq!(ColorU::white().to_hash(), "#ffffffff");
    assert_eq!(ColorU { r: 10, g: 16, b: 171, a: 15 }.to_hash(), "#a10abf");
    assert_eq!(ColorU::transparent().to_hash(), "#0000");
}

#[test]
fn named_colors() {
    assert_eq!(ColorU::green(), ColorU { r: 0, g: 255, b: 0, a: 255 });
    assert_eq!(ColorU::blue(), ColorU { r: 0, g: 0, b: 255, a: 255 });
    assert_eq!(ColorU::red(), ColorU { r: 255, g: 0, b: 0, a: 255 });
}

#[test]
fn border_style_normalization() {
    assert_eq!(BorderStyle::NoBorder.normalize_border(), None);
    assert_eq!(BorderStyle::Solid.normalize_border(), Some(BorderStyleNoNone::Solid));
    assert_eq!(BorderStyle::Outset.normalize_border(), Some(BorderStyleNoNone::Outset));
    assert_eq!(BorderStyle::Hidden.normalize_border(), Some(BorderStyleNoNone::Hidden));
    assert_eq!(BorderStyle::default(), BorderStyle::Solid);
}

#[test]
fn keywords_of_styles() {
    assert_eq!(BorderStyle::NoBorder.as_str(), "none");
    assert_eq!(BorderStyle::Dashed.as_str(), "dashed");
    assert_eq!(BorderStyle::Ridge.as_str(), "ridge");
    assert_eq!(BoxShadowClipMode::Inset.as_str(), "inset");
    assert_eq!(BoxShadowClipMode::Outset.as_str(), "outset");
}

#[test]
fn flex_direction_axis() {
    assert_eq!(LayoutFlexDirection::Row.get_axis(), LayoutAxis::Horizontal);
    assert_eq!(LayoutFlexDirection::RowReverse.get_axis(), LayoutAxis::Horizontal);
    assert_eq!(LayoutFlexDirection::Column.get_axis(), LayoutAxis::Vertical);
    assert_eq!(LayoutFlexDirection::ColumnReverse.get_axis(), LayoutAxis::Vertical);
    assert!(LayoutFlexDirection::RowReverse.is_reverse());
    assert!(LayoutFlexDirection::ColumnReverse.is_reverse());
    assert!(!LayoutFlexDirection::Row.is_reverse());
    assert_eq!(LayoutFlexDirection::default(), LayoutFlexDirection::Row);
}

#[test]
fn overflow_scrollbars() {
    assert!(Overflow::Scroll.needs_scrollbar(false));
    assert!(Overflow::Auto.needs_scrollbar(true));
    assert!(!Overflow::Auto.needs_scrollbar(false));
    assert!(!Overflow::Hidden.needs_scrollbar(true));
    assert!(!Overflow::Visible.needs_scrollbar(true));
    assert!(Overflow::Visible.is_overflow_visible());
    assert!(!Overflow::Hidden.is_overflow_visible());
    assert_eq!(Overflow::default(), Overflow::Auto);
}

#[test]
fn defaults_of_layout_and_style() {
    assert_eq!(LayoutDisplay::default(), LayoutDisplay::Block);
    assert_eq!(LayoutFlexGrow::default().inner.number, 0);
    assert_eq!(StyleCursor::default(), StyleCursor::Default);
    assert_eq!(StyleBackgroundRepeat::default(), StyleBackgroundRepeat::Repeat);
    let p = StyleBackgroundPosition::default();
    assert_eq!(p.horizontal, BackgroundPositionHorizontal::Left);
    assert_eq!(p.vertical, BackgroundPositionVertical::Top);
}

#[test]
fn background_layers() {
    assert_eq!(StyleBackgroundContent::default(), StyleBackgroundContent::Color(ColorU::transparent()));
    let id = CssImageId { inner: String::from("logo") };
    let layer = StyleBackgroundContent::from(id.clone());
    assert_eq!(layer.get_css_image_id(), Some(&id));
    assert_eq!(StyleBackgroundContent::Color(ColorU::red()).get_css_image_id(), None);
}

#[test]
fn scrollbar_defaults() {
    let s = ScrollbarInfo::default();
    assert_eq!(s.width.inner, PixelValue::const_px(17));
    assert_eq!(s.padding_left.inner, PixelValue::const_px(2));
    assert_eq!(s.padding_right.inner, PixelValue::const_px(2));
    assert_eq!(s.track, StyleBackgroundContent::Color(ColorU { r: 241, g: 241, b: 241, a: 255 }));
    assert_eq!(s.thumb, StyleBackgroundContent::Color(ColorU { r: 193, g: 193, b: 193, a: 255 }));
    assert_eq!(s.button, StyleBackgroundContent::Color(ColorU { r: 163, g: 163, b: 163, a: 255 }));
    assert_eq!(s.corner, StyleBackgroundContent::default());
    assert_eq!(s.resizer, StyleBackgroundContent::default());
}
