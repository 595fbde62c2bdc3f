//! The property-type registry: every property kind, its key in a
//! stylesheet, the shorthand keys, and the classification the cascade needs.

use vstd::prelude::*;
use crate::text::{is_white_space, lookup, str_eq, trim_end, trim_start, trim_str, trim_whitespace};

verus! {

/// Shorthand keys, each of which stands for several property kinds.
#[derive(Debug, Copy, Clone, PartialEq, Eq, Structural, PartialOrd, Ord, Hash)]
pub enum CombinedCssPropertyType {
    BorderRadius,
    Overflow,
    Margin,
    Border,
    BorderLeft,
    BorderRight,
    BorderTop,
    BorderBottom,
    Padding,
    BoxShadow,
}

/// Kind of a (non-shorthand) style property.
#[derive(Debug, Copy, Clone, PartialEq, Eq, Structural, PartialOrd, Ord, Hash)]
pub enum CssPropertyType {
    TextColor,
    FontSize,
    FontFamily,
    TextAlign,
    LetterSpacing,
    LineHeight,
    WordSpacing,
    TabWidth,
    Cursor,
    Display,
    Float,
    BoxSizing,
    Width,
    Height,
    MinWidth,
    MinHeight,
    MaxWidth,
    MaxHeight,
    Position,
    Top,
    Right,
    Left,
    Bottom,
    FlexWrap,
    FlexDirection,
    FlexGrow,
    FlexShrink,
    JustifyContent,
    AlignItems,
    AlignContent,
    OverflowX,
    OverflowY,
    PaddingTop,
    PaddingLeft,
    PaddingRight,
    PaddingBottom,
    MarginTop,
    MarginLeft,
    MarginRight,
    MarginBottom,
    Background,
    BackgroundImage,
    BackgroundColor,
    BackgroundPosition,
    BackgroundSize,
    BackgroundRepeat,
    BorderTopLeftRadius,
    BorderTopRightRadius,
    BorderBottomLeftRadius,
    BorderBottomRightRadius,
    BorderTopColor,
    BorderRightColor,
    BorderLeftColor,
    BorderBottomColor,
    BorderTopStyle,
    BorderRightStyle,
    BorderLeftStyle,
    BorderBottomStyle,
    BorderTopWidth,
    BorderRightWidth,
    BorderLeftWidth,
    BorderBottomWidth,
    BoxShadowLeft,
    BoxShadowRight,
    BoxShadowTop,
    BoxShadowBottom,
    ScrollbarStyle,
    Opacity,
    Transform,
    PerspectiveOrigin,
    TransformOrigin,
    BackfaceVisibility,
}

/// The shorthand keys, in the order in which the key map holds them.
pub open spec fn combined_key_table() -> Seq<(&'static str, CombinedCssPropertyType)> {
    seq![
        ("border-radius", CombinedCssPropertyType::BorderRadius),
        ("overflow", CombinedCssPropertyType::Overflow),
        ("padding", CombinedCssPropertyType::Padding),
        ("margin", CombinedCssPropertyType::Margin),
        ("border", CombinedCssPropertyType::Border),
        ("border-left", CombinedCssPropertyType::BorderLeft),
        ("border-right", CombinedCssPropertyType::BorderRight),
        ("border-top", CombinedCssPropertyType::BorderTop),
        ("border-bottom", CombinedCssPropertyType::BorderBottom),
        ("box-shadow", CombinedCssPropertyType::BoxShadow),
    ]
}

/// The keys of all property kinds, in the order in which the key map holds them.
pub open spec fn css_key_table() -> Seq<(&'static str, CssPropertyType)> {
    seq![
        ("display", CssPropertyType::Display),
        ("float", CssPropertyType::Float),
        ("box-sizing", CssPropertyType::BoxSizing),
        ("color", CssPropertyType::TextColor),
        ("font-size", CssPropertyType::FontSize),
        ("font-family", CssPropertyType::FontFamily),
        ("text-align", CssPropertyType::TextAlign),
        ("letter-spacing", CssPropertyType::LetterSpacing),
        ("line-height", CssPropertyType::LineHeight),
        ("word-spacing", CssPropertyType::WordSpacing),
        ("tab-width", CssPropertyType::TabWidth),
        ("cursor", CssPropertyType::Cursor),
        ("width", CssPropertyType::Width),
        ("height", CssPropertyType::Height),
        ("min-width", CssPropertyType::MinWidth),
        ("min-height", CssPropertyType::MinHeight),
        ("max-width", CssPropertyType::MaxWidth),
        ("max-height", CssPropertyType::MaxHeight),
        ("position", CssPropertyType::Position),
        ("top", CssPropertyType::Top),
        ("right", CssPropertyType::Right),
        ("left", CssPropertyType::Left),
        ("bottom", CssPropertyType::Bottom),
        ("flex-wrap", CssPropertyType::FlexWrap),
        ("flex-direction", CssPropertyType::FlexDirection),
        ("flex-grow", CssPropertyType::FlexGrow),
        ("flex-shrink", CssPropertyType::FlexShrink),
        ("justify-content", CssPropertyType::JustifyContent),
        ("align-items", CssPropertyType::AlignItems),
        ("align-content", CssPropertyType::AlignContent),
        ("overflow-x", CssPropertyType::OverflowX),
        ("overflow-y", CssPropertyType::OverflowY),
        ("padding-top", CssPropertyType::PaddingTop),
        ("padding-left", CssPropertyType::PaddingLeft),
        ("padding-right", CssPropertyType::PaddingRight),
        ("padding-bottom", CssPropertyType::PaddingBottom),
        ("margin-top", CssPropertyType::MarginTop),
        ("margin-left", CssPropertyType::MarginLeft),
        ("margin-right", CssPropertyType::MarginRight),
        ("margin-bottom", CssPropertyType::MarginBottom),
        ("background", CssPropertyType::Background),
        ("background-image", CssPropertyType::BackgroundImage),
        ("background-color", CssPropertyType::BackgroundColor),
        ("background-position", CssPropertyType::BackgroundPosition),
        ("background-size", CssPropertyType::BackgroundSize),
        ("background-repeat", CssPropertyType::BackgroundRepeat),
        ("border-top-left-radius", CssPropertyType::BorderTopLeftRadius),
        ("border-top-right-radius", CssPropertyType::BorderTopRightRadius),
        ("border-bottom-left-radius", CssPropertyType::BorderBottomLeftRadius),
        ("border-bottom-right-radius", CssPropertyType::BorderBottomRightRadius),
        ("border-top-color", CssPropertyType::BorderTopColor),
        ("border-right-color", CssPropertyType::BorderRightColor),
        ("border-left-color", CssPropertyType::BorderLeftColor),
        ("border-bottom-color", CssPropertyType::BorderBottomColor),
        ("border-top-style", CssPropertyType::BorderTopStyle),
        ("border-right-style", CssPropertyType::BorderRightStyle),
        ("border-left-style", CssPropertyType::BorderLeftStyle),
        ("border-bottom-style", CssPropertyType::BorderBottomStyle),
        ("border-top-width", CssPropertyType::BorderTopWidth),
        ("border-right-width", CssPropertyType::BorderRightWidth),
        ("border-left-width", CssPropertyType::BorderLeftWidth),
        ("border-bottom-width", CssPropertyType::BorderBottomWidth),
        ("box-shadow-top", CssPropertyType::BoxShadowTop),
        ("box-shadow-right", CssPropertyType::BoxShadowRight),
        ("box-shadow-left", CssPropertyType::BoxShadowLeft),
        ("box-shadow-bottom", CssPropertyType::BoxShadowBottom),
        ("scrollbar-style", CssPropertyType::ScrollbarStyle),
        ("opacity", CssPropertyType::Opacity),
        ("transform", CssPropertyType::Transform),
        ("perspective-origin", CssPropertyType::PerspectiveOrigin),
        ("transform-origin", CssPropertyType::TransformOrigin),
        ("backface-visibility", CssPropertyType::BackfaceVisibility),
    ]
}

/// Maps between stylesheet keys and property kinds. Entries stay in table
/// order; a lookup takes the first entry whose key matches.
#[derive(Debug, Clone, PartialEq, Eq, PartialOrd, Ord, Hash)]
pub struct CssKeyMap {
    /// Keys that are no shorthand, with their kind.
    pub non_shorthands: Vec<(&'static str, CssPropertyType)>,
    /// Shorthand keys, with the shorthand they stand for.
    pub shorthands: Vec<(&'static str, CombinedCssPropertyType)>,
}

/// No two entries of `entries` have the same key.
pub open spec fn keys_distinct<T>(entries: Seq<(&'static str, T)>) -> bool {
    forall|i: int, j: int|
        0 <= i < entries.len() && 0 <= j < entries.len() && i != j ==> #[trigger] entries[i].0@
            != #[trigger] entries[j].0@
}

/// No key of `a` is a key of `b`.
pub open spec fn keys_disjoint<T, U>(a: Seq<(&'static str, T)>, b: Seq<(&'static str, U)>) -> bool {
    forall|i: int, j: int|
        0 <= i < a.len() && 0 <= j < b.len() ==> #[trigger] a[i].0@ != #[trigger] b[j].0@
}

impl CssKeyMap {
    /// Keys are unique within each table, and no key is in both tables.
    pub open spec fn wf(self) -> bool {
        &&& keys_distinct(self.non_shorthands@)
        &&& keys_distinct(self.shorthands@)
        &&& keys_disjoint(self.non_shorthands@, self.shorthands@)
    }
}

/// The key map of all property kinds and shorthands.
pub fn get_css_key_map() -> (r: CssKeyMap)
    ensures
        r.wf(),
        r.non_shorthands@ == css_key_table(),
        r.shorthands@ == combined_key_table(),
{
    let non_shorthands = vec![
        ("display", CssPropertyType::Display),
        ("float", CssPropertyType::Float),
        ("box-sizing", CssPropertyType::BoxSizing),
        ("color", CssPropertyType::TextColor),
        ("font-size", CssPropertyType::FontSize),
        ("font-family", CssPropertyType::FontFamily),
        ("text-align", CssPropertyType::TextAlign),
        ("letter-spacing", CssPropertyType::LetterSpacing),
        ("line-height", CssPropertyType::LineHeight),
        ("word-spacing", CssPropertyType::WordSpacing),
        ("tab-width", CssPropertyType::TabWidth),
        ("cursor", CssPropertyType::Cursor),
        ("width", CssPropertyType::Width),
        ("height", CssPropertyType::Height),
        ("min-width", CssPropertyType::MinWidth),
        ("min-height", CssPropertyType::MinHeight),
        ("max-width", CssPropertyType::MaxWidth),
        ("max-height", CssPropertyType::MaxHeight),
        ("position", CssPropertyType::Position),
        ("top", CssPropertyType::Top),
        ("right", CssPropertyType::Right),
        ("left", CssPropertyType::Left),
        ("bottom", CssPropertyType::Bottom),
        ("flex-wrap", CssPropertyType::FlexWrap),
        ("flex-direction", CssPropertyType::FlexDirection),
        ("flex-grow", CssPropertyType::FlexGrow),
        ("flex-shrink", CssPropertyType::FlexShrink),
        ("justify-content", CssPropertyType::JustifyContent),
        ("align-items", CssPropertyType::AlignItems),
        ("align-content", CssPropertyType::AlignContent),
        ("overflow-x", CssPropertyType::OverflowX),
        ("overflow-y", CssPropertyType::OverflowY),
        ("padding-top", CssPropertyType::PaddingTop),
        ("padding-left", CssPropertyType::PaddingLeft),
        ("padding-right", CssPropertyType::PaddingRight),
        ("padding-bottom", CssPropertyType::PaddingBottom),
        ("margin-top", CssPropertyType::MarginTop),
        ("margin-left", CssPropertyType::MarginLeft),
        ("margin-right", CssPropertyType::MarginRight),
        ("margin-bottom", CssPropertyType::MarginBottom),
        ("background", CssPropertyType::Background),
        ("background-image", CssPropertyType::BackgroundImage),
        ("background-color", CssPropertyType::BackgroundColor),
        ("background-position", CssPropertyType::BackgroundPosition),
        ("background-size", CssPropertyType::BackgroundSize),
        ("background-repeat", CssPropertyType::BackgroundRepeat),
        ("border-top-left-radius", CssPropertyType::BorderTopLeftRadius),
        ("border-top-right-radius", CssPropertyType::BorderTopRightRadius),
        ("border-bottom-left-radius", CssPropertyType::BorderBottomLeftRadius),
        ("border-bottom-right-radius", CssPropertyType::BorderBottomRightRadius),
        ("border-top-color", CssPropertyType::BorderTopColor),
        ("border-right-color", CssPropertyType::BorderRightColor),
        ("border-left-color", CssPropertyType::BorderLeftColor),
        ("border-bottom-color", CssPropertyType::BorderBottomColor),
        ("border-top-style", CssPropertyType::BorderTopStyle),
        ("border-right-style", CssPropertyType::BorderRightStyle),
        ("border-left-style", CssPropertyType::BorderLeftStyle),
        ("border-bottom-style", CssPropertyType::BorderBottomStyle),
        ("border-top-width", CssPropertyType::BorderTopWidth),
        ("border-right-width", CssPropertyType::BorderRightWidth),
        ("border-left-width", CssPropertyType::BorderLeftWidth),
        ("border-bottom-width", CssPropertyType::BorderBottomWidth),
        ("box-shadow-top", CssPropertyType::BoxShadowTop),
        ("box-shadow-right", CssPropertyType::BoxShadowRight),
        ("box-shadow-left", CssPropertyType::BoxShadowLeft),
        ("box-shadow-bottom", CssPropertyType::BoxShadowBottom),
        ("scrollbar-style", CssPropertyType::ScrollbarStyle),
        ("opacity", CssPropertyType::Opacity),
        ("transform", CssPropertyType::Transform),
        ("perspective-origin", CssPropertyType::PerspectiveOrigin),
        ("transform-origin", CssPropertyType::TransformOrigin),
        ("backface-visibility", CssPropertyType::BackfaceVisibility),
    ];
    let shorthands = vec![
        ("border-radius", CombinedCssPropertyType::BorderRadius),
        ("overflow", CombinedCssPropertyType::Overflow),
        ("padding", CombinedCssPropertyType::Padding),
        ("margin", CombinedCssPropertyType::Margin),
        ("border", CombinedCssPropertyType::Border),
        ("border-left", CombinedCssPropertyType::BorderLeft),
        ("border-right", CombinedCssPropertyType::BorderRight),
        ("border-top", CombinedCssPropertyType::BorderTop),
        ("border-bottom", CombinedCssPropertyType::BorderBottom),
        ("box-shadow", CombinedCssPropertyType::BoxShadow),
    ];
    proof {
        lemma_key_tables_distinct();
    }
    CssKeyMap { non_shorthands, shorthands }
}

/// Position of the entry of `t` in its table.
spec fn kind_index(t: CssPropertyType) -> int {
    match t {
        CssPropertyType::Display => 0,
        CssPropertyType::Float => 1,
        CssPropertyType::BoxSizing => 2,
        CssPropertyType::TextColor => 3,
        CssPropertyType::FontSize => 4,
        CssPropertyType::FontFamily => 5,
        CssPropertyType::TextAlign => 6,
        CssPropertyType::LetterSpacing => 7,
        CssPropertyType::LineHeight => 8,
        CssPropertyType::WordSpacing => 9,
        CssPropertyType::TabWidth => 10,
        CssPropertyType::Cursor => 11,
        CssPropertyType::Width => 12,
        CssPropertyType::Height => 13,
        CssPropertyType::MinWidth => 14,
        CssPropertyType::MinHeight => 15,
        CssPropertyType::MaxWidth => 16,
        CssPropertyType::MaxHeight => 17,
        CssPropertyType::Position => 18,
        CssPropertyType::Top => 19,
        CssPropertyType::Right => 20,
        CssPropertyType::Left => 21,
        CssPropertyType::Bottom => 22,
        CssPropertyType::FlexWrap => 23,
        CssPropertyType::FlexDirection => 24,
        CssPropertyType::FlexGrow => 25,
        CssPropertyType::FlexShrink => 26,
        CssPropertyType::JustifyContent => 27,
        CssPropertyType::AlignItems => 28,
        CssPropertyType::AlignContent => 29,
        CssPropertyType::OverflowX => 30,
        CssPropertyType::OverflowY => 31,
        CssPropertyType::PaddingTop => 32,
        CssPropertyType::PaddingLeft => 33,
        CssPropertyType::PaddingRight => 34,
        CssPropertyType::PaddingBottom => 35,
        CssPropertyType::MarginTop => 36,
        CssPropertyType::MarginLeft => 37,
        CssPropertyType::MarginRight => 38,
        CssPropertyType::MarginBottom => 39,
        CssPropertyType::Background => 40,
        CssPropertyType::BackgroundImage => 41,
        CssPropertyType::BackgroundColor => 42,
        CssPropertyType::BackgroundPosition => 43,
        CssPropertyType::BackgroundSize => 44,
        CssPropertyType::BackgroundRepeat => 45,
        CssPropertyType::BorderTopLeftRadius => 46,
        CssPropertyType::BorderTopRightRadius => 47,
        CssPropertyType::BorderBottomLeftRadius => 48,
        CssPropertyType::BorderBottomRightRadius => 49,
        CssPropertyType::BorderTopColor => 50,
        CssPropertyType::BorderRightColor => 51,
        CssPropertyType::BorderLeftColor => 52,
        CssPropertyType::BorderBottomColor => 53,
        CssPropertyType::BorderTopStyle => 54,
        CssPropertyType::BorderRightStyle => 55,
        CssPropertyType::BorderLeftStyle => 56,
        CssPropertyType::BorderBottomStyle => 57,
        CssPropertyType::BorderTopWidth => 58,
        CssPropertyType::BorderRightWidth => 59,
        CssPropertyType::BorderLeftWidth => 60,
        CssPropertyType::BorderBottomWidth => 61,
        CssPropertyType::BoxShadowTop => 62,
        CssPropertyType::BoxShadowRight => 63,
        CssPropertyType::BoxShadowLeft => 64,
        CssPropertyType::BoxShadowBottom => 65,
        CssPropertyType::ScrollbarStyle => 66,
        CssPropertyType::Opacity => 67,
        CssPropertyType::Transform => 68,
        CssPropertyType::PerspectiveOrigin => 69,
        CssPropertyType::TransformOrigin => 70,
        CssPropertyType::BackfaceVisibility => 71,
    }
}

/// Position of the entry of `t` in its table.
spec fn shorthand_index(t: CombinedCssPropertyType) -> int {
    match t {
        CombinedCssPropertyType::BorderRadius => 0,
        CombinedCssPropertyType::Overflow => 1,
        CombinedCssPropertyType::Padding => 2,
        CombinedCssPropertyType::Margin => 3,
        CombinedCssPropertyType::Border => 4,
        CombinedCssPropertyType::BorderLeft => 5,
        CombinedCssPropertyType::BorderRight => 6,
        CombinedCssPropertyType::BorderTop => 7,
        CombinedCssPropertyType::BorderBottom => 8,
        CombinedCssPropertyType::BoxShadow => 9,
    }
}

/// Each property kind has exactly one entry in the key table, and each
/// shorthand exactly one entry in the shorthand table.
pub proof fn lemma_each_kind_has_one_key(t: CssPropertyType, c: CombinedCssPropertyType)
    ensures
        exists|i: int| 0 <= i < css_key_table().len() && css_key_table()[i].1 == t,
        forall|i: int, j: int|
            0 <= i < css_key_table().len() && 0 <= j < css_key_table().len()
                && #[trigger] css_key_table()[i].1 == t && #[trigger] css_key_table()[j].1 == t ==> i == j,
        exists|i: int| 0 <= i < combined_key_table().len() && combined_key_table()[i].1 == c,
        forall|i: int, j: int|
            0 <= i < combined_key_table().len() && 0 <= j < combined_key_table().len()
                && #[trigger] combined_key_table()[i].1 == c && #[trigger] combined_key_table()[j].1 == c ==> i == j,
{
    assert forall|i: int| 0 <= i < css_key_table().len() implies kind_index(
        #[trigger] css_key_table()[i].1,
    ) == i by {
    }
    assert forall|i: int| 0 <= i < combined_key_table().len() implies shorthand_index(
        #[trigger] combined_key_table()[i].1,
    ) == i by {
    }
    let k = kind_index(t);
    assert(css_key_table()[k].1 == t);
    let s = shorthand_index(c);
    assert(combined_key_table()[s].1 == c);
}

/// Length, first two and last char of a key: enough to tell all keys apart.
spec fn key_fingerprint(s: Seq<char>) -> (int, char, char, char) {
    (s.len() as int, s[0], s[1], s[s.len() - 1])
}

/// Position of a key with fingerprint `f` among the property keys followed by
/// the shorthand keys; -1 for no key.
spec fn key_slot(f: (int, char, char, char)) -> int {
    if f == (7int, 'd', 'i', 'y') {
        0
    } else if f == (5int, 'f', 'l', 't') {
        1
    } else if f == (10int, 'b', 'o', 'g') {
        2
    } else if f == (5int, 'c', 'o', 'r') {
        3
    } else if f == (9int, 'f', 'o', 'e') {
        4
    } else if f == (11int, 'f', 'o', 'y') {
        5
    } else if f == (10int, 't', 'e', 'n') {
        6
    } else if f == (14int, 'l', 'e', 'g') {
        7
    } else if f == (11int, 'l', 'i', 't') {
        8
    } else if f == (12int, 'w', 'o', 'g') {
        9
    } else if f == (9int, 't', 'a', 'h') {
        10
    } else if f == (6int, 'c', 'u', 'r') {
        11
    } else if f == (5int, 'w', 'i', 'h') {
        12
    } else if f == (6int, 'h', 'e', 't') {
        13
    } else if f == (9int, 'm', 'i', 'h') {
        14
    } else if f == (10int, 'm', 'i', 't') {
        15
    } else if f == (9int, 'm', 'a', 'h') {
        16
    } else if f == (10int, 'm', 'a', 't') {
        17
    } else if f == (8int, 'p', 'o', 'n') {
        18
    } else if f == (3int, 't', 'o', 'p') {
        19
    } else if f == (5int, 'r', 'i', 't') {
        20
    } else if f == (4int, 'l', 'e', 't') {
        21
    } else if f == (6int, 'b', 'o', 'm') {
        22
    } else if f == (9int, 'f', 'l', 'p') {
        23
    } else if f == (14int, 'f', 'l', 'n') {
        24
    } else if f == (9int, 'f', 'l', 'w') {
        25
    } else if f == (11int, 'f', 'l', 'k') {
        26
    } else if f == (15int, 'j', 'u', 't') {
        27
    } else if f == (11int, 'a', 'l', 's') {
        28
    } else if f == (13int, 'a', 'l', 't') {
        29
    } else if f == (10int, 'o', 'v', 'x') {
        30
    } else if f == (10int, 'o', 'v', 'y') {
        31
    } else if f == (11int, 'p', 'a', 'p') {
        32
    } else if f == (12int, 'p', 'a', 't') {
        33
    } else if f == (13int, 'p', 'a', 't') {
        34
    } else if f == (14int, 'p', 'a', 'm') {
        35
    } else if f == (10int, 'm', 'a', 'p') {
        36
    } else if f == (11int, 'm', 'a', 't') {
        37
    } else if f == (12int, 'm', 'a', 't') {
        38
    } else if f == (13int, 'm', 'a', 'm') {
        39
    } else if f == (10int, 'b', 'a', 'd') {
        40
    } else if f == (16int, 'b', 'a', 'e') {
        41
    } else if f == (16int, 'b', 'a', 'r') {
        42
    } else if f == (19int, 'b', 'a', 'n') {
        43
    } else if f == (15int, 'b', 'a', 'e') {
        44
    } else if f == (17int, 'b', 'a', 't') {
        45
    } else if f == (22int, 'b', 'o', 's') {
        46
    } else if f == (23int, 'b', 'o', 's') {
        47
    } else if f == (25int, 'b', 'o', 's') {
        48
    } else if f == (26int, 'b', 'o', 's') {
        49
    } else if f == (16int, 'b', 'o', 'r') {
        50
    } else if f == (18int, 'b', 'o', 'r') {
        51
    } else if f == (17int, 'b', 'o', 'r') {
        52
    } else if f == (19int, 'b', 'o', 'r') {
        53
    } else if f == (16int, 'b', 'o', 'e') {
        54
    } else if f == (18int, 'b', 'o', 'e') {
        55
    } else if f == (17int, 'b', 'o', 'e') {
        56
    } else if f == (19int, 'b', 'o', 'e') {
        57
    } else if f == (16int, 'b', 'o', 'h') {
        58
    } else if f == (18int, 'b', 'o', 'h') {
        59
    } else if f == (17int, 'b', 'o', 'h') {
        60
    } else if f == (19int, 'b', 'o', 'h') {
        61
    } else if f == (14int, 'b', 'o', 'p') {
        62
    } else if f == (16int, 'b', 'o', 't') {
        63
    } else if f == (15int, 'b', 'o', 't') {
        64
    } else if f == (17int, 'b', 'o', 'm') {
        65
    } else if f == (15int, 's', 'c', 'e') {
        66
    } else if f == (7int, 'o', 'p', 'y') {
        67
    } else if f == (9int, 't', 'r', 'm') {
        68
    } else if f == (18int, 'p', 'e', 'n') {
        69
    } else if f == (16int, 't', 'r', 'n') {
        70
    } else if f == (19int, 'b', 'a', 'y') {
        71
    } else if f == (13int, 'b', 'o', 's') {
        72
    } else if f == (8int, 'o', 'v', 'w') {
        73
    } else if f == (7int, 'p', 'a', 'g') {
        74
    } else if f == (6int, 'm', 'a', 'n') {
        75
    } else if f == (6int, 'b', 'o', 'r') {
        76
    } else if f == (11int, 'b', 'o', 't') {
        77
    } else if f == (12int, 'b', 'o', 't') {
        78
    } else if f == (10int, 'b', 'o', 'p') {
        79
    } else if f == (13int, 'b', 'o', 'm') {
        80
    } else if f == (10int, 'b', 'o', 'w') {
        81
    } else {
        -1
    }
}

/// `s` is at least three chars long and neither starts nor ends with white space.
spec fn plain_key(s: Seq<char>) -> bool {
    s.len() >= 3 && !is_white_space(s[0]) && !is_white_space(s[s.len() - 1])
}

proof fn lemma_key_slots()
    ensures
        forall|i: int|
            0 <= i < css_key_table().len() ==> plain_key(#[trigger] css_key_table()[i].0@)
                && key_slot(key_fingerprint(css_key_table()[i].0@)) == i,
        forall|i: int|
            0 <= i < combined_key_table().len() ==> plain_key(#[trigger] combined_key_table()[i].0@)
                && key_slot(key_fingerprint(combined_key_table()[i].0@)) == 72 + i,
{
    reveal_strlit("display");
    reveal_strlit("float");
    reveal_strlit("box-sizing");
    reveal_strlit("color");
    reveal_strlit("font-size");
    reveal_strlit("font-family");
    reveal_strlit("text-align");
    reveal_strlit("letter-spacing");
    reveal_strlit("line-height");
    reveal_strlit("word-spacing");
    reveal_strlit("tab-width");
    reveal_strlit("cursor");
    reveal_strlit("width");
    reveal_strlit("height");
    reveal_strlit("min-width");
    reveal_strlit("min-height");
    reveal_strlit("max-width");
    reveal_strlit("max-height");
    reveal_strlit("position");
    reveal_strlit("top");
    reveal_strlit("right");
    reveal_strlit("left");
    reveal_strlit("bottom");
    reveal_strlit("flex-wrap");
    reveal_strlit("flex-direction");
    reveal_strlit("flex-grow");
    reveal_strlit("flex-shrink");
    reveal_strlit("justify-content");
    reveal_strlit("align-items");
    reveal_strlit("align-content");
    reveal_strlit("overflow-x");
    reveal_strlit("overflow-y");
    reveal_strlit("padding-top");
    reveal_strlit("padding-left");
    reveal_strlit("padding-right");
    reveal_strlit("padding-bottom");
    reveal_strlit("margin-top");
    reveal_strlit("margin-left");
    reveal_strlit("margin-right");
    reveal_strlit("margin-bottom");
    reveal_strlit("background");
    reveal_strlit("background-image");
    reveal_strlit("background-color");
    reveal_strlit("background-position");
    reveal_strlit("background-size");
    reveal_strlit("background-repeat");
    reveal_strlit("border-top-left-radius");
    reveal_strlit("border-top-right-radius");
    reveal_strlit("border-bottom-left-radius");
    reveal_strlit("border-bottom-right-radius");
    reveal_strlit("border-top-color");
    reveal_strlit("border-right-color");
    reveal_strlit("border-left-color");
    reveal_strlit("border-bottom-color");
    reveal_strlit("border-top-style");
    reveal_strlit("border-right-style");
    reveal_strlit("border-left-style");
    reveal_strlit("border-bottom-style");
    reveal_strlit("border-top-width");
    reveal_strlit("border-right-width");
    reveal_strlit("border-left-width");
    reveal_strlit("border-bottom-width");
    reveal_strlit("box-shadow-top");
    reveal_strlit("box-shadow-right");
    reveal_strlit("box-shadow-left");
    reveal_strlit("box-shadow-bottom");
    reveal_strlit("scrollbar-style");
    reveal_strlit("opacity");
    reveal_strlit("transform");
    reveal_strlit("perspective-origin");
    reveal_strlit("transform-origin");
    reveal_strlit("backface-visibility");
    reveal_strlit("border-radius");
    reveal_strlit("overflow");
    reveal_strlit("padding");
    reveal_strlit("margin");
    reveal_strlit("border");
    reveal_strlit("border-left");
    reveal_strlit("border-right");
    reveal_strlit("border-top");
    reveal_strlit("border-bottom");
    reveal_strlit("box-shadow");
    assert forall|i: int| 0 <= i < css_key_table().len() implies plain_key(
        #[trigger] css_key_table()[i].0@,
    ) && key_slot(key_fingerprint(css_key_table()[i].0@)) == i by {
    }
    assert forall|i: int| 0 <= i < combined_key_table().len() implies plain_key(
        #[trigger] combined_key_table()[i].0@,
    ) && key_slot(key_fingerprint(combined_key_table()[i].0@)) == 72 + i by {
    }
}

/// Keys are unique within each key table, and no key is in both.
pub proof fn lemma_key_tables_distinct()
    ensures
        keys_distinct(css_key_table()),
        keys_distinct(combined_key_table()),
        keys_disjoint(css_key_table(), combined_key_table()),
{
    lemma_key_slots();
    let keys = css_key_table();
    let shorts = combined_key_table();
    assert forall|i: int, j: int|
        0 <= i < keys.len() && 0 <= j < keys.len() && i != j implies #[trigger] keys[i].0@
        != #[trigger] keys[j].0@ by {
        assert(key_slot(key_fingerprint(keys[i].0@)) == i);
        assert(key_slot(key_fingerprint(keys[j].0@)) == j);
    }
    assert forall|i: int, j: int|
        0 <= i < shorts.len() && 0 <= j < shorts.len() && i != j implies #[trigger] shorts[i].0@
        != #[trigger] shorts[j].0@ by {
        assert(key_slot(key_fingerprint(shorts[i].0@)) == 72 + i);
        assert(key_slot(key_fingerprint(shorts[j].0@)) == 72 + j);
    }
    assert forall|i: int, j: int| 0 <= i < keys.len() && 0 <= j < shorts.len() implies #[trigger] keys[i].0@
        != #[trigger] shorts[j].0@ by {
        assert(key_slot(key_fingerprint(keys[i].0@)) == i);
        assert(key_slot(key_fingerprint(shorts[j].0@)) == 72 + j);
    }
}

proof fn lemma_lookup_finds_unique_key<T>(entries: Seq<(&'static str, T)>, k: int)
    requires
        0 <= k < entries.len(),
        forall|j: int| 0 <= j < entries.len() && j != k ==> #[trigger] entries[j].0@ != entries[k].0@,
    ensures
        lookup(entries, entries[k].0@) == Some(entries[k].1),
    decreases entries.len(),
{
    if k > 0 {
        let rest = entries.drop_first();
        assert(entries[0].0@ != entries[k].0@);
        assert forall|j: int| 0 <= j < rest.len() && j != k - 1 implies #[trigger] rest[j].0@
            != rest[k - 1].0@ by {
            assert(rest[j] == entries[j + 1]);
        }
        lemma_lookup_finds_unique_key(rest, k - 1);
    }
}

proof fn lemma_lookup_absent<T>(entries: Seq<(&'static str, T)>, key: Seq<char>)
    requires
        forall|j: int| 0 <= j < entries.len() ==> #[trigger] entries[j].0@ != key,
    ensures
        lookup(entries, key).is_none(),
    decreases entries.len(),
{
    if entries.len() > 0 {
        let rest = entries.drop_first();
        assert forall|j: int| 0 <= j < rest.len() implies #[trigger] rest[j].0@ != key by {
            assert(rest[j] == entries[j + 1]);
        }
        lemma_lookup_absent(rest, key);
    }
}

proof fn lemma_first_key_of_unique<T>(entries: Seq<(&'static str, T)>, k: int)
    requires
        0 <= k < entries.len(),
        forall|j: int| 0 <= j < entries.len() && j != k ==> #[trigger] entries[j].1 != entries[k].1,
    ensures
        first_key_of(entries, entries[k].1) == Some(entries[k].0),
    decreases entries.len(),
{
    if k > 0 {
        let rest = entries.drop_first();
        assert(entries[0].1 != entries[k].1);
        assert forall|j: int| 0 <= j < rest.len() && j != k - 1 implies #[trigger] rest[j].1
            != rest[k - 1].1 by {
            assert(rest[j] == entries[j + 1]);
        }
        lemma_first_key_of_unique(rest, k - 1);
    }
}

proof fn lemma_trim_plain_key(s: Seq<char>)
    requires
        plain_key(s),
    ensures
        trim_whitespace(s) == s,
{
    reveal_with_fuel(trim_start, 2);
    reveal_with_fuel(trim_end, 2);
}

/// The key that the key map holds for a property kind leads back to that
/// kind, surrounding white space or not, and is no shorthand key; likewise
/// the key of a shorthand leads back to that shorthand and is no property key.
pub proof fn lemma_key_round_trip(t: CssPropertyType, c: CombinedCssPropertyType)
    ensures
        first_key_of(css_key_table(), t).is_some(),
        lookup(css_key_table(), trim_whitespace(first_key_of(css_key_table(), t).unwrap()@))
            == Some(t),
        lookup(combined_key_table(), first_key_of(css_key_table(), t).unwrap()@).is_none(),
        first_key_of(combined_key_table(), c).is_some(),
        lookup(combined_key_table(), trim_whitespace(first_key_of(combined_key_table(), c).unwrap()@))
            == Some(c),
        lookup(css_key_table(), first_key_of(combined_key_table(), c).unwrap()@).is_none(),
{
    lemma_each_kind_has_one_key(t, c);
    lemma_key_tables_distinct();
    lemma_key_slots();
    let keys = css_key_table();
    let shorts = combined_key_table();
    let k = choose|i: int| 0 <= i < keys.len() && keys[i].1 == t;
    let s = choose|i: int| 0 <= i < shorts.len() && shorts[i].1 == c;
    assert forall|j: int| 0 <= j < keys.len() && j != k implies #[trigger] keys[j].1 != keys[k].1 by {}
    assert forall|j: int| 0 <= j < shorts.len() && j != s implies #[trigger] shorts[j].1
        != shorts[s].1 by {}
    lemma_first_key_of_unique(keys, k);
    lemma_first_key_of_unique(shorts, s);
    assert forall|j: int| 0 <= j < keys.len() && j != k implies #[trigger] keys[j].0@
        != keys[k].0@ by {}
    assert forall|j: int| 0 <= j < shorts.len() && j != s implies #[trigger] shorts[j].0@
        != shorts[s].0@ by {}
    assert forall|j: int| 0 <= j < shorts.len() implies #[trigger] shorts[j].0@ != keys[k].0@ by {}
    assert forall|j: int| 0 <= j < keys.len() implies #[trigger] keys[j].0@ != shorts[s].0@ by {}
    lemma_lookup_finds_unique_key(keys, k);
    lemma_lookup_finds_unique_key(shorts, s);
    lemma_lookup_absent(shorts, keys[k].0@);
    lemma_lookup_absent(keys, shorts[s].0@);
    lemma_trim_plain_key(keys[k].0@);
    lemma_trim_plain_key(shorts[s].0@);
}

/// Key of the first entry that holds `t`, if any.
pub open spec fn first_key_of<T>(entries: Seq<(&'static str, T)>, t: T) -> Option<&'static str>
    decreases entries.len(),
{
    if entries.len() == 0 {
        None
    } else if entries[0].1 == t {
        Some(entries[0].0)
    } else {
        first_key_of(entries.drop_first(), t)
    }
}

/// Kinds inherited by child nodes during the cascade.
pub open spec fn inheritable(t: CssPropertyType) -> bool {
    match t {
        CssPropertyType::TextColor |
        CssPropertyType::FontFamily |
        CssPropertyType::FontSize |
        CssPropertyType::LineHeight |
        CssPropertyType::TextAlign => true,
        _ => false,
    }
}

/// Kinds whose change only repaints and never moves anything.
pub open spec fn paint_only(t: CssPropertyType) -> bool {
    match t {
        CssPropertyType::TextColor |
        CssPropertyType::Cursor |
        CssPropertyType::Background |
        CssPropertyType::BackgroundPosition |
        CssPropertyType::BackgroundSize |
        CssPropertyType::BackgroundRepeat |
        CssPropertyType::BackgroundImage |
        CssPropertyType::BackgroundColor |
        CssPropertyType::BorderTopLeftRadius |
        CssPropertyType::BorderTopRightRadius |
        CssPropertyType::BorderBottomLeftRadius |
        CssPropertyType::BorderBottomRightRadius |
        CssPropertyType::BorderTopColor |
        CssPropertyType::BorderRightColor |
        CssPropertyType::BorderLeftColor |
        CssPropertyType::BorderBottomColor |
        CssPropertyType::BorderTopStyle |
        CssPropertyType::BorderRightStyle |
        CssPropertyType::BorderLeftStyle |
        CssPropertyType::BorderBottomStyle |
        CssPropertyType::BoxShadowLeft |
        CssPropertyType::BoxShadowRight |
        CssPropertyType::BoxShadowTop |
        CssPropertyType::BoxShadowBottom => true,
        _ => false,
    }
}

/// Kinds applied while compositing, after layout.
pub open spec fn gpu_only(t: CssPropertyType) -> bool {
    t == CssPropertyType::Opacity || t == CssPropertyType::Transform
}

impl CombinedCssPropertyType {
    /// The key of this shorthand, as written in a stylesheet.
    pub fn to_string(&self) -> (r: String)
        ensures
            r@ == first_key_of(combined_key_table(), *self).unwrap()@,
    {
        let map = get_css_key_map();
        proof {
            lemma_key_round_trip(CssPropertyType::Width, *self);
        }
        self.to_str(&map).to_owned()
    }

    /// The shorthand for `input` with surrounding whitespace removed, if it is one.
    pub fn from_str(input: &str, map: &CssKeyMap) -> (r: Option<Self>)
        ensures
            r == lookup(map.shorthands@, trim_whitespace(input@)),
    {
        let input = trim_str(input);
        find_combined(&map.shorthands, input)
    }

    /// The key that `map` holds for this shorthand.
    pub fn to_str(&self, map: &CssKeyMap) -> (r: &'static str)
        requires
            first_key_of(map.shorthands@, *self).is_some(),
        ensures
            r == first_key_of(map.shorthands@, *self).unwrap(),
    {
        let entries = &map.shorthands;
        let mut i: usize = 0;
        assert(entries@.subrange(0, entries@.len() as int) =~= entries@);
        while i < entries.len()
            invariant
                entries@ == map.shorthands@,
                0 <= i <= entries@.len(),
                first_key_of(entries@, *self) == first_key_of(entries@.subrange(i as int, entries@.len() as int), *self),
            decreases entries@.len() - i,
        {
            let ghost rest = entries@.subrange(i as int, entries@.len() as int);
            assert(rest.drop_first() =~= entries@.subrange(i + 1, entries@.len() as int));
            if entries[i].1 == *self {
                assert(rest[0] == entries@[i as int]);
                assert(first_key_of(rest, *self) == Some(rest[0].0));
                return entries[i].0;
            }
            i = i + 1;
        }
        proof {
            assert(entries@.subrange(i as int, entries@.len() as int).len() == 0);
        }
        entries[0].0
    }
}

impl CssPropertyType {
    /// The key of this kind, as written in a stylesheet.
    pub fn to_string(&self) -> (r: String)
        ensures
            r@ == first_key_of(css_key_table(), *self).unwrap()@,
    {
        let map = get_css_key_map();
        proof {
            lemma_key_round_trip(*self, CombinedCssPropertyType::Border);
        }
        self.to_str(&map).to_owned()
    }

    /// The kind for `input` with surrounding whitespace removed, if it is a
    /// key that is no shorthand.
    pub fn from_str(input: &str, map: &CssKeyMap) -> (r: Option<Self>)
        ensures
            r == lookup(map.non_shorthands@, trim_whitespace(input@)),
    {
        let input = trim_str(input);
        find_property(&map.non_shorthands, input)
    }

    /// The key that `map` holds for this kind.
    pub fn to_str(&self, map: &CssKeyMap) -> (r: &'static str)
        requires
            first_key_of(map.non_shorthands@, *self).is_some(),
        ensures
            r == first_key_of(map.non_shorthands@, *self).unwrap(),
    {
        let entries = &map.non_shorthands;
        let mut i: usize = 0;
        assert(entries@.subrange(0, entries@.len() as int) =~= entries@);
        while i < entries.len()
            invariant
                entries@ == map.non_shorthands@,
                0 <= i <= entries@.len(),
                first_key_of(entries@, *self) == first_key_of(entries@.subrange(i as int, entries@.len() as int), *self),
            decreases entries@.len() - i,
        {
            let ghost rest = entries@.subrange(i as int, entries@.len() as int);
            assert(rest.drop_first() =~= entries@.subrange(i + 1, entries@.len() as int));
            if entries[i].1 == *self {
                assert(rest[0] == entries@[i as int]);
                assert(first_key_of(rest, *self) == Some(rest[0].0));
                return entries[i].0;
            }
            i = i + 1;
        }
        proof {
            assert(entries@.subrange(i as int, entries@.len() as int).len() == 0);
        }
        entries[0].0
    }

    /// Whether the property is inherited during the cascade: only text color,
    /// font family, font size, line height and text alignment are.
    pub fn is_inheritable(&self) -> (r: bool)
        ensures
            r == inheritable(*self),
    {
        match self {
            CssPropertyType::TextColor |
            CssPropertyType::FontFamily |
            CssPropertyType::FontSize |
            CssPropertyType::LineHeight |
            CssPropertyType::TextAlign => true,
            _ => false,
        }
    }

    /// Whether a change of the property can require a new layout; false only
    /// for the kinds that merely repaint.
    pub fn can_trigger_relayout(&self) -> (r: bool)
        ensures
            r == !paint_only(*self),
    {
        match self {
            CssPropertyType::TextColor |
            CssPropertyType::Cursor |
            CssPropertyType::Background |
            CssPropertyType::BackgroundPosition |
            CssPropertyType::BackgroundSize |
            CssPropertyType::BackgroundRepeat |
            CssPropertyType::BackgroundImage |
            CssPropertyType::BackgroundColor |
            CssPropertyType::BorderTopLeftRadius |
            CssPropertyType::BorderTopRightRadius |
            CssPropertyType::BorderBottomLeftRadius |
            CssPropertyType::BorderBottomRightRadius |
            CssPropertyType::BorderTopColor |
            CssPropertyType::BorderRightColor |
            CssPropertyType::BorderLeftColor |
            CssPropertyType::BorderBottomColor |
            CssPropertyType::BorderTopStyle |
            CssPropertyType::BorderRightStyle |
            CssPropertyType::BorderLeftStyle |
            CssPropertyType::BorderBottomStyle |
            CssPropertyType::BoxShadowLeft |
            CssPropertyType::BoxShadowRight |
            CssPropertyType::BoxShadowTop |
            CssPropertyType::BoxShadowBottom => false,
            _ => true,
        }
    }

    /// Whether the property is applied on the GPU: only opacity and transform are.
    pub fn is_gpu_only_property(&self) -> (r: bool)
        ensures
            r == gpu_only(*self),
    {
        match self {
            CssPropertyType::Opacity | CssPropertyType::Transform => true,
            _ => false,
        }
    }
}

fn find_property(entries: &Vec<(&'static str, CssPropertyType)>, key: &str) -> (r: Option<CssPropertyType>)
    ensures
        r == lookup(entries@, key@),
{
    let mut i: usize = 0;
    assert(entries@.subrange(0, entries@.len() as int) =~= entries@);
    while i < entries.len()
        invariant
            0 <= i <= entries@.len(),
            lookup(entries@, key@) == lookup(entries@.subrange(i as int, entries@.len() as int), key@),
        decreases entries@.len() - i,
    {
        let ghost rest = entries@.subrange(i as int, entries@.len() as int);
        assert(rest.drop_first() =~= entries@.subrange(i + 1, entries@.len() as int));
        if str_eq(entries[i].0, key) {
            return Some(entries[i].1);
        }
        i = i + 1;
    }
    None
}

fn find_combined(entries: &Vec<(&'static str, CombinedCssPropertyType)>, key: &str) -> (r: Option<
    CombinedCssPropertyType,
>)
    ensures
        r == lookup(entries@, key@),
{
    let mut i: usize = 0;
    assert(entries@.subrange(0, entries@.len() as int) =~= entries@);
    while i < entries.len()
        invariant
            0 <= i <= entries@.len(),
            lookup(entries@, key@) == lookup(entries@.subrange(i as int, entries@.len() as int), key@),
        decreases entries@.len() - i,
    {
        let ghost rest = entries@.subrange(i as int, entries@.len() as int);
        assert(rest.drop_first() =~= entries@.subrange(i + 1, entries@.len() as int));
        if str_eq(entries[i].0, key) {
            return Some(entries[i].1);
        }
        i = i + 1;
    }
    None
}

} // verus!
