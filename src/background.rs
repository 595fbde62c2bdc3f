//! Background layers: colors, images and gradients, with gradient directions.

use vstd::prelude::*;
use crate::color::ColorU;
use crate::geometry::{LayoutPoint, LayoutRect};
use crate::units::{AngleValue, PercentageValue, PixelValue};

verus! {

/// Whether a gradient is repeated or clamped to the edges.
#[derive(Debug, Copy, Clone, PartialEq, Eq, Structural, PartialOrd, Ord, Hash)]
pub enum ExtendMode {
    Clamp,
    Repeat,
}

/// Identifier of an image, owned so that it outlives the source text.
#[derive(Debug, Clone, PartialEq, Eq, PartialOrd, Ord, Hash)]
pub struct CssImageId {
    pub inner: String,
}

/// Color stop of a conic gradient; `offset` is `None` where none was given.
#[derive(Debug, Copy, Clone, PartialEq, Eq, Structural, PartialOrd, Ord, Hash)]
pub struct RadialColorStop {
    pub offset: Option<AngleValue>,
    pub color: ColorU,
}

/// Color stop of a linear or radial gradient; `offset` is `None` where none was given.
#[derive(Debug, Copy, Clone, PartialEq, Eq, Structural, PartialOrd, Ord, Hash)]
pub struct LinearColorStop {
    pub offset: Option<PercentageValue>,
    pub color: ColorU,
}

pub type RadialColorStopVec = Vec<RadialColorStop>;

pub type LinearColorStopVec = Vec<LinearColorStop>;

#[derive(Debug, Clone, PartialEq, Eq, PartialOrd, Ord, Hash)]
pub struct LinearGradient {
    pub direction: Direction,
    pub extend_mode: ExtendMode,
    pub stops: LinearColorStopVec,
}

#[derive(Debug, Clone, PartialEq, Eq, PartialOrd, Ord, Hash)]
pub struct ConicGradient {
    pub extend_mode: ExtendMode,
    pub center_x: PixelValue,
    pub center_y: PixelValue,
    pub angle: AngleValue,
    pub stops: RadialColorStopVec,
}

#[derive(Debug, Clone, PartialEq, Eq, PartialOrd, Ord, Hash)]
pub struct RadialGradient {
    pub shape: Shape,
    pub extend_mode: ExtendMode,
    pub stops: LinearColorStopVec,
}

#[derive(Debug, Copy, Clone, PartialEq, Eq, Structural, PartialOrd, Ord, Hash)]
pub enum Shape {
    Ellipse,
    Circle,
}

/// One layer of a background.
#[derive(Debug, Clone, PartialEq, Eq, PartialOrd, Ord, Hash)]
pub enum StyleBackgroundContent {
    LinearGradient(LinearGradient),
    RadialGradient(RadialGradient),
    ConicGradient(ConicGradient),
    Image(CssImageId),
    Color(ColorU),
}

pub type StyleBackgroundContentVec = Vec<StyleBackgroundContent>;

impl Default for StyleBackgroundContent {
    fn default() -> (r: Self)
        ensures
            r == StyleBackgroundContent::Color(ColorU { r: 0, g: 0, b: 0, a: 0 }),
    {
        StyleBackgroundContent::Color(ColorU::transparent())
    }
}

impl StyleBackgroundContent {
    /// The image of an image layer, `None` for every other layer.
    pub fn get_css_image_id(&self) -> (r: Option<&CssImageId>)
        ensures
            match *self {
                StyleBackgroundContent::Image(i) => r == Some(&i),
                _ => r.is_none(),
            },
    {
        match self {
            StyleBackgroundContent::Image(i) => Some(i),
            _ => None,
        }
    }
}

impl From<CssImageId> for StyleBackgroundContent {
    fn from(id: CssImageId) -> (r: Self)
        ensures
            r == StyleBackgroundContent::Image(id),
    {
        StyleBackgroundContent::Image(id)
    }
}

impl vstd::std_specs::convert::FromSpecImpl<CssImageId> for StyleBackgroundContent {
    open spec fn obeys_from_spec() -> bool {
        true
    }

    open spec fn from_spec(v: CssImageId) -> Self {
        StyleBackgroundContent::Image(v)
    }
}

/// `background-size`.
#[derive(Debug, Copy, Clone, PartialEq, Eq, PartialOrd, Ord, Hash)]
pub enum StyleBackgroundSize {
    ExactSize([PixelValue; 2]),
    Contain,
    Cover,
}

pub type StyleBackgroundSizeVec = Vec<StyleBackgroundSize>;

/// `background-position`.
#[derive(Debug, Copy, Clone, PartialEq, Eq, Structural, PartialOrd, Ord, Hash)]
pub struct StyleBackgroundPosition {
    pub horizontal: BackgroundPositionHorizontal,
    pub vertical: BackgroundPositionVertical,
}

pub type StyleBackgroundPositionVec = Vec<StyleBackgroundPosition>;

impl Default for StyleBackgroundPosition {
    fn default() -> (r: Self)
        ensures
            r.horizontal == BackgroundPositionHorizontal::Left,
            r.vertical == BackgroundPositionVertical::Top,
    {
        StyleBackgroundPosition {
            horizontal: BackgroundPositionHorizontal::Left,
            vertical: BackgroundPositionVertical::Top,
        }
    }
}

#[derive(Debug, Copy, Clone, PartialEq, Eq, Structural, PartialOrd, Ord, Hash)]
pub enum BackgroundPositionHorizontal {
    Left,
    Center,
    Right,
    Exact(PixelValue),
}

#[derive(Debug, Copy, Clone, PartialEq, Eq, Structural, PartialOrd, Ord, Hash)]
pub enum BackgroundPositionVertical {
    Top,
    Center,
    Bottom,
    Exact(PixelValue),
}

/// `background-repeat`.
#[derive(Debug, Copy, Clone, PartialEq, Eq, Structural, PartialOrd, Ord, Hash)]
pub enum StyleBackgroundRepeat {
    NoRepeat,
    Repeat,
    RepeatX,
    RepeatY,
}

pub type StyleBackgroundRepeatVec = Vec<StyleBackgroundRepeat>;

impl Default for StyleBackgroundRepeat {
    fn default() -> (r: Self)
        ensures
            r == StyleBackgroundRepeat::Repeat,
    {
        StyleBackgroundRepeat::Repeat
    }
}

/// Direction of a gradient: a fixed angle, or from one side or corner to another.
#[derive(Debug, Copy, Clone, PartialEq, Eq, Structural, PartialOrd, Ord, Hash)]
pub enum Direction {
    Angle(AngleValue),
    FromTo(DirectionCorners),
}

#[derive(Debug, Copy, Clone, PartialEq, Eq, Structural, PartialOrd, Ord, Hash)]
pub struct DirectionCorners {
    pub from: DirectionCorner,
    pub to: DirectionCorner,
}

/// A side or a corner of a rectangle.
#[derive(Debug, Copy, Clone, PartialEq, Eq, Structural, PartialOrd, Ord, Hash)]
pub enum DirectionCorner {
    Right,
    Left,
    Top,
    Bottom,
    TopRight,
    TopLeft,
    BottomRight,
    BottomLeft,
}

/// Integer division by two, rounding toward zero.
pub open spec fn half(v: int) -> int {
    if v >= 0 {
        v / 2
    } else {
        -((-v) / 2)
    }
}

/// The side or corner across the center from `c`.
pub open spec fn opposite_corner(c: DirectionCorner) -> DirectionCorner {
    match c {
        DirectionCorner::Right => DirectionCorner::Left,
        DirectionCorner::Left => DirectionCorner::Right,
        DirectionCorner::Top => DirectionCorner::Bottom,
        DirectionCorner::Bottom => DirectionCorner::Top,
        DirectionCorner::TopRight => DirectionCorner::BottomLeft,
        DirectionCorner::BottomLeft => DirectionCorner::TopRight,
        DirectionCorner::TopLeft => DirectionCorner::BottomRight,
        DirectionCorner::BottomRight => DirectionCorner::TopLeft,
    }
}

/// The corner where a horizontal and a vertical side meet, in either order;
/// `None` for any other pair.
pub open spec fn combined_corner(a: DirectionCorner, b: DirectionCorner) -> Option<DirectionCorner> {
    match (a, b) {
        (DirectionCorner::Right, DirectionCorner::Top) | (DirectionCorner::Top, DirectionCorner::Right) =>
            Some(DirectionCorner::TopRight),
        (DirectionCorner::Left, DirectionCorner::Top) | (DirectionCorner::Top, DirectionCorner::Left) =>
            Some(DirectionCorner::TopLeft),
        (DirectionCorner::Right, DirectionCorner::Bottom) | (DirectionCorner::Bottom, DirectionCorner::Right) =>
            Some(DirectionCorner::BottomRight),
        (DirectionCorner::Left, DirectionCorner::Bottom) | (DirectionCorner::Bottom, DirectionCorner::Left) =>
            Some(DirectionCorner::BottomLeft),
        _ => None,
    }
}

/// The point of a side's middle or of a corner, relative to the rectangle's origin.
pub open spec fn corner_point(c: DirectionCorner, rect: LayoutRect) -> (int, int) {
    let w = rect.size.width as int;
    let h = rect.size.height as int;
    match c {
        DirectionCorner::Right => (w, half(h)),
        DirectionCorner::Left => (0, half(h)),
        DirectionCorner::Top => (half(w), 0),
        DirectionCorner::Bottom => (half(w), h),
        DirectionCorner::TopRight => (w, 0),
        DirectionCorner::TopLeft => (0, 0),
        DirectionCorner::BottomRight => (w, h),
        DirectionCorner::BottomLeft => (0, h),
    }
}

impl DirectionCorner {
    pub fn opposite(&self) -> (r: Self)
        ensures
            r == opposite_corner(*self),
    {
        match *self {
            DirectionCorner::Right => DirectionCorner::Left,
            DirectionCorner::Left => DirectionCorner::Right,
            DirectionCorner::Top => DirectionCorner::Bottom,
            DirectionCorner::Bottom => DirectionCorner::Top,
            DirectionCorner::TopRight => DirectionCorner::BottomLeft,
            DirectionCorner::BottomLeft => DirectionCorner::TopRight,
            DirectionCorner::TopLeft => DirectionCorner::BottomRight,
            DirectionCorner::BottomRight => DirectionCorner::TopLeft,
        }
    }

    pub fn combine(&self, other: &Self) -> (r: Option<Self>)
        ensures
            r == combined_corner(*self, *other),
    {
        match (*self, *other) {
            (DirectionCorner::Right, DirectionCorner::Top)
            | (DirectionCorner::Top, DirectionCorner::Right) => Some(DirectionCorner::TopRight),
            (DirectionCorner::Left, DirectionCorner::Top)
            | (DirectionCorner::Top, DirectionCorner::Left) => Some(DirectionCorner::TopLeft),
            (DirectionCorner::Right, DirectionCorner::Bottom)
            | (DirectionCorner::Bottom, DirectionCorner::Right) => Some(DirectionCorner::BottomRight),
            (DirectionCorner::Left, DirectionCorner::Bottom)
            | (DirectionCorner::Bottom, DirectionCorner::Left) => Some(DirectionCorner::BottomLeft),
            _ => None,
        }
    }

    /// The point of this side's middle or of this corner, relative to the
    /// rectangle's origin.
    pub fn to_point(&self, rect: &LayoutRect) -> (r: LayoutPoint)
        ensures
            (r.x as int, r.y as int) == corner_point(*self, *rect),
    {
        let w = rect.size.width;
        let h = rect.size.height;
        match *self {
            DirectionCorner::Right => LayoutPoint { x: w, y: h / 2 },
            DirectionCorner::Left => LayoutPoint { x: 0, y: h / 2 },
            DirectionCorner::Top => LayoutPoint { x: w / 2, y: 0 },
            DirectionCorner::Bottom => LayoutPoint { x: w / 2, y: h },
            DirectionCorner::TopRight => LayoutPoint { x: w, y: 0 },
            DirectionCorner::TopLeft => LayoutPoint { x: 0, y: 0 },
            DirectionCorner::BottomRight => LayoutPoint { x: w, y: h },
            DirectionCorner::BottomLeft => LayoutPoint { x: 0, y: h },
        }
    }
}

/// `c` is the left or the right side.
pub open spec fn is_horizontal_side(c: DirectionCorner) -> bool {
    c == DirectionCorner::Left || c == DirectionCorner::Right
}

/// `c` is the top or the bottom side.
pub open spec fn is_vertical_side(c: DirectionCorner) -> bool {
    c == DirectionCorner::Top || c == DirectionCorner::Bottom
}

/// Two sides combine into a corner exactly when one of them is the left or
/// right side and the other the top or bottom side; the order does not
/// matter. Every other pair, such as two opposite sides, a side with itself or
/// anything with a corner, combines to nothing.
pub proof fn lemma_combine_needs_perpendicular_sides(a: DirectionCorner, b: DirectionCorner)
    ensures
        combined_corner(a, b).is_some() <==> (is_horizontal_side(a) && is_vertical_side(b)) || (
        is_vertical_side(a) && is_horizontal_side(b)),
        combined_corner(a, b) == combined_corner(b, a),
{
}

/// Taking the opposite twice gives back the same side or corner, and a side
/// or corner is never its own opposite.
pub proof fn lemma_opposite_is_involution(c: DirectionCorner)
    ensures
        opposite_corner(opposite_corner(c)) == c,
        opposite_corner(c) != c,
{
}

impl DirectionCorners {
    /// Start and end point of a gradient that runs from `from` to `to`.
    pub fn to_points(&self, rect: &LayoutRect) -> (r: (LayoutPoint, LayoutPoint))
        ensures
            (r.0.x as int, r.0.y as int) == corner_point(self.from, *rect),
            (r.1.x as int, r.1.y as int) == corner_point(self.to, *rect),
    {
        (self.from.to_point(rect), self.to.to_point(rect))
    }
}

} // verus!
