use vstd::prelude::*;
use crate::text::{is_ascii_text, lower_text, str_eq, to_lowercase};

verus! {

/// The style properties that a style node understands.
#[derive(Clone, Copy, Debug, PartialEq, Eq, Hash, Structural)]
pub enum StylePropKey {
    Color,
    BackgroundColor,
    FontSize,
    FontFamily,
    FontWeight,
    FontStyle,
    LineHeight,
    BorderTopWidth,
    BorderRightWidth,
    BorderBottomWidth,
    BorderLeftWidth,
    BorderTopColor,
    BorderRightColor,
    BorderBottomColor,
    BorderLeftColor,
    Display,
    Width,
    Height,
    MaxWidth,
    MaxHeight,
    MinWidth,
    MinHeight,
    MarginTop,
    MarginRight,
    MarginBottom,
    MarginLeft,
    PaddingTop,
    PaddingRight,
    PaddingBottom,
    PaddingLeft,
    Flex,
    FlexBasis,
    FlexGrow,
    FlexShrink,
    AlignSelf,
    Direction,
    Position,
    Overflow,
    BorderTopLeftRadius,
    BorderTopRightRadius,
    BorderBottomRightRadius,
    BorderBottomLeftRadius,
    JustifyContent,
    FlexDirection,
    AlignContent,
    AlignItems,
    FlexWrap,
    ColumnGap,
    RowGap,
    Top,
    Right,
    Bottom,
    Left,
    Transform,
    AnimationName,
    AnimationDuration,
    AnimationIterationCount,
}

/// The name of a property as it is written in code (`"BorderTopWidth"`).
pub open spec fn key_name(k: StylePropKey) -> Seq<char> {
    match k {
        StylePropKey::Color => "Color"@,
        StylePropKey::BackgroundColor => "BackgroundColor"@,
        StylePropKey::FontSize => "FontSize"@,
        StylePropKey::FontFamily => "FontFamily"@,
        StylePropKey::FontWeight => "FontWeight"@,
        StylePropKey::FontStyle => "FontStyle"@,
        StylePropKey::LineHeight => "LineHeight"@,
        StylePropKey::BorderTopWidth => "BorderTopWidth"@,
        StylePropKey::BorderRightWidth => "BorderRightWidth"@,
        StylePropKey::BorderBottomWidth => "BorderBottomWidth"@,
        StylePropKey::BorderLeftWidth => "BorderLeftWidth"@,
        StylePropKey::BorderTopColor => "BorderTopColor"@,
        StylePropKey::BorderRightColor => "BorderRightColor"@,
        StylePropKey::BorderBottomColor => "BorderBottomColor"@,
        StylePropKey::BorderLeftColor => "BorderLeftColor"@,
        StylePropKey::Display => "Display"@,
        StylePropKey::Width => "Width"@,
        StylePropKey::Height => "Height"@,
        StylePropKey::MaxWidth => "MaxWidth"@,
        StylePropKey::MaxHeight => "MaxHeight"@,
        StylePropKey::MinWidth => "MinWidth"@,
        StylePropKey::MinHeight => "MinHeight"@,
        StylePropKey::MarginTop => "MarginTop"@,
        StylePropKey::MarginRight => "MarginRight"@,
        StylePropKey::MarginBottom => "MarginBottom"@,
        StylePropKey::MarginLeft => "MarginLeft"@,
        StylePropKey::PaddingTop => "PaddingTop"@,
        StylePropKey::PaddingRight => "PaddingRight"@,
        StylePropKey::PaddingBottom => "PaddingBottom"@,
        StylePropKey::PaddingLeft => "PaddingLeft"@,
        StylePropKey::Flex => "Flex"@,
        StylePropKey::FlexBasis => "FlexBasis"@,
        StylePropKey::FlexGrow => "FlexGrow"@,
        StylePropKey::FlexShrink => "FlexShrink"@,
        StylePropKey::AlignSelf => "AlignSelf"@,
        StylePropKey::Direction => "Direction"@,
        StylePropKey::Position => "Position"@,
        StylePropKey::Overflow => "Overflow"@,
        StylePropKey::BorderTopLeftRadius => "BorderTopLeftRadius"@,
        StylePropKey::BorderTopRightRadius => "BorderTopRightRadius"@,
        StylePropKey::BorderBottomRightRadius => "BorderBottomRightRadius"@,
        StylePropKey::BorderBottomLeftRadius => "BorderBottomLeftRadius"@,
        StylePropKey::JustifyContent => "JustifyContent"@,
        StylePropKey::FlexDirection => "FlexDirection"@,
        StylePropKey::AlignContent => "AlignContent"@,
        StylePropKey::AlignItems => "AlignItems"@,
        StylePropKey::FlexWrap => "FlexWrap"@,
        StylePropKey::ColumnGap => "ColumnGap"@,
        StylePropKey::RowGap => "RowGap"@,
        StylePropKey::Top => "Top"@,
        StylePropKey::Right => "Right"@,
        StylePropKey::Bottom => "Bottom"@,
        StylePropKey::Left => "Left"@,
        StylePropKey::Transform => "Transform"@,
        StylePropKey::AnimationName => "AnimationName"@,
        StylePropKey::AnimationDuration => "AnimationDuration"@,
        StylePropKey::AnimationIterationCount => "AnimationIterationCount"@,
    }
}

/// The property that a lower-cased key names, if any.
pub open spec fn key_lookup(l: Seq<char>) -> Option<StylePropKey> {
    if l == "color"@ {
        Some(StylePropKey::Color)
    } else     if l == "backgroundcolor"@ {
        Some(StylePropKey::BackgroundColor)
    } else     if l == "fontsize"@ {
        Some(StylePropKey::FontSize)
    } else     if l == "fontfamily"@ {
        Some(StylePropKey::FontFamily)
    } else     if l == "fontweight"@ {
        Some(StylePropKey::FontWeight)
    } else     if l == "fontstyle"@ {
        Some(StylePropKey::FontStyle)
    } else     if l == "lineheight"@ {
        Some(StylePropKey::LineHeight)
    } else     if l == "bordertopwidth"@ {
        Some(StylePropKey::BorderTopWidth)
    } else     if l == "borderrightwidth"@ {
        Some(StylePropKey::BorderRightWidth)
    } else     if l == "borderbottomwidth"@ {
        Some(StylePropKey::BorderBottomWidth)
    } else     if l == "borderleftwidth"@ {
        Some(StylePropKey::BorderLeftWidth)
    } else     if l == "bordertopcolor"@ {
        Some(StylePropKey::BorderTopColor)
    } else     if l == "borderrightcolor"@ {
        Some(StylePropKey::BorderRightColor)
    } else     if l == "borderbottomcolor"@ {
        Some(StylePropKey::BorderBottomColor)
    } else     if l == "borderleftcolor"@ {
        Some(StylePropKey::BorderLeftColor)
    } else     if l == "display"@ {
        Some(StylePropKey::Display)
    } else     if l == "width"@ {
        Some(StylePropKey::Width)
    } else     if l == "height"@ {
        Some(StylePropKey::Height)
    } else     if l == "maxwidth"@ {
        Some(StylePropKey::MaxWidth)
    } else     if l == "maxheight"@ {
        Some(StylePropKey::MaxHeight)
    } else     if l == "minwidth"@ {
        Some(StylePropKey::MinWidth)
    } else     if l == "minheight"@ {
        Some(StylePropKey::MinHeight)
    } else     if l == "margintop"@ {
        Some(StylePropKey::MarginTop)
    } else     if l == "marginright"@ {
        Some(StylePropKey::MarginRight)
    } else     if l == "marginbottom"@ {
        Some(StylePropKey::MarginBottom)
    } else     if l == "marginleft"@ {
        Some(StylePropKey::MarginLeft)
    } else     if l == "paddingtop"@ {
        Some(StylePropKey::PaddingTop)
    } else     if l == "paddingright"@ {
        Some(StylePropKey::PaddingRight)
    } else     if l == "paddingbottom"@ {
        Some(StylePropKey::PaddingBottom)
    } else     if l == "paddingleft"@ {
        Some(StylePropKey::PaddingLeft)
    } else     if l == "flex"@ {
        Some(StylePropKey::Flex)
    } else     if l == "flexbasis"@ {
        Some(StylePropKey::FlexBasis)
    } else     if l == "flexgrow"@ {
        Some(StylePropKey::FlexGrow)
    } else     if l == "flexshrink"@ {
        Some(StylePropKey::FlexShrink)
    } else     if l == "alignself"@ {
        Some(StylePropKey::AlignSelf)
    } else     if l == "direction"@ {
        Some(StylePropKey::Direction)
    } else     if l == "position"@ {
        Some(StylePropKey::Position)
    } else     if l == "overflow"@ {
        Some(StylePropKey::Overflow)
    } else     if l == "bordertopleftradius"@ {
        Some(StylePropKey::BorderTopLeftRadius)
    } else     if l == "bordertoprightradius"@ {
        Some(StylePropKey::BorderTopRightRadius)
    } else     if l == "borderbottomrightradius"@ {
        Some(StylePropKey::BorderBottomRightRadius)
    } else     if l == "borderbottomleftradius"@ {
        Some(StylePropKey::BorderBottomLeftRadius)
    } else     if l == "justifycontent"@ {
        Some(StylePropKey::JustifyContent)
    } else     if l == "flexdirection"@ {
        Some(StylePropKey::FlexDirection)
    } else     if l == "aligncontent"@ {
        Some(StylePropKey::AlignContent)
    } else     if l == "alignitems"@ {
        Some(StylePropKey::AlignItems)
    } else     if l == "flexwrap"@ {
        Some(StylePropKey::FlexWrap)
    } else     if l == "columngap"@ {
        Some(StylePropKey::ColumnGap)
    } else     if l == "rowgap"@ {
        Some(StylePropKey::RowGap)
    } else     if l == "top"@ {
        Some(StylePropKey::Top)
    } else     if l == "right"@ {
        Some(StylePropKey::Right)
    } else     if l == "bottom"@ {
        Some(StylePropKey::Bottom)
    } else     if l == "left"@ {
        Some(StylePropKey::Left)
    } else     if l == "transform"@ {
        Some(StylePropKey::Transform)
    } else     if l == "animationname"@ {
        Some(StylePropKey::AnimationName)
    } else     if l == "animationduration"@ {
        Some(StylePropKey::AnimationDuration)
    } else     if l == "animationiterationcount"@ {
        Some(StylePropKey::AnimationIterationCount)
    } else {
        None
    }
}


/// Each property name, lower-cased, is that name in lower case.
#[verifier::rlimit(50)]
proof fn lemma_lower_names()
    ensures
        lower_text("Color"@) == "color"@,
        lower_text("BackgroundColor"@) == "backgroundcolor"@,
        lower_text("FontSize"@) == "fontsize"@,
        lower_text("FontFamily"@) == "fontfamily"@,
        lower_text("FontWeight"@) == "fontweight"@,
        lower_text("FontStyle"@) == "fontstyle"@,
        lower_text("LineHeight"@) == "lineheight"@,
        lower_text("BorderTopWidth"@) == "bordertopwidth"@,
        lower_text("BorderRightWidth"@) == "borderrightwidth"@,
        lower_text("BorderBottomWidth"@) == "borderbottomwidth"@,
        lower_text("BorderLeftWidth"@) == "borderleftwidth"@,
        lower_text("BorderTopColor"@) == "bordertopcolor"@,
        lower_text("BorderRightColor"@) == "borderrightcolor"@,
        lower_text("BorderBottomColor"@) == "borderbottomcolor"@,
        lower_text("BorderLeftColor"@) == "borderleftcolor"@,
        lower_text("Display"@) == "display"@,
        lower_text("Width"@) == "width"@,
        lower_text("Height"@) == "height"@,
        lower_text("MaxWidth"@) == "maxwidth"@,
        lower_text("MaxHeight"@) == "maxheight"@,
        lower_text("MinWidth"@) == "minwidth"@,
        lower_text("MinHeight"@) == "minheight"@,
        lower_text("MarginTop"@) == "margintop"@,
        lower_text("MarginRight"@) == "marginright"@,
        lower_text("MarginBottom"@) == "marginbottom"@,
        lower_text("MarginLeft"@) == "marginleft"@,
        lower_text("PaddingTop"@) == "paddingtop"@,
        lower_text("PaddingRight"@) == "paddingright"@,
        lower_text("PaddingBottom"@) == "paddingbottom"@,
        lower_text("PaddingLeft"@) == "paddingleft"@,
        lower_text("Flex"@) == "flex"@,
        lower_text("FlexBasis"@) == "flexbasis"@,
        lower_text("FlexGrow"@) == "flexgrow"@,
        lower_text("FlexShrink"@) == "flexshrink"@,
        lower_text("AlignSelf"@) == "alignself"@,
        lower_text("Direction"@) == "direction"@,
        lower_text("Position"@) == "position"@,
        lower_text("Overflow"@) == "overflow"@,
        lower_text("BorderTopLeftRadius"@) == "bordertopleftradius"@,
        lower_text("BorderTopRightRadius"@) == "bordertoprightradius"@,
        lower_text("BorderBottomRightRadius"@) == "borderbottomrightradius"@,
        lower_text("BorderBottomLeftRadius"@) == "borderbottomleftradius"@,
        lower_text("JustifyContent"@) == "justifycontent"@,
        lower_text("FlexDirection"@) == "flexdirection"@,
        lower_text("AlignContent"@) == "aligncontent"@,
        lower_text("AlignItems"@) == "alignitems"@,
        lower_text("FlexWrap"@) == "flexwrap"@,
        lower_text("ColumnGap"@) == "columngap"@,
        lower_text("RowGap"@) == "rowgap"@,
        lower_text("Top"@) == "top"@,
        lower_text("Right"@) == "right"@,
        lower_text("Bottom"@) == "bottom"@,
        lower_text("Left"@) == "left"@,
        lower_text("Transform"@) == "transform"@,
        lower_text("AnimationName"@) == "animationname"@,
        lower_text("AnimationDuration"@) == "animationduration"@,
        lower_text("AnimationIterationCount"@) == "animationiterationcount"@,
{
    reveal_strlit("Color");
    reveal_strlit("color");
    assert(is_ascii_text("Color"@));
    assert(lower_text("Color"@) =~= "color"@);
    reveal_strlit("BackgroundColor");
    reveal_strlit("backgroundcolor");
    assert(is_ascii_text("BackgroundColor"@));
    assert(lower_text("BackgroundColor"@) =~= "backgroundcolor"@);
    reveal_strlit("FontSize");
    reveal_strlit("fontsize");
    assert(is_ascii_text("FontSize"@));
    assert(lower_text("FontSize"@) =~= "fontsize"@);
    reveal_strlit("FontFamily");
    reveal_strlit("fontfamily");
    assert(is_ascii_text("FontFamily"@));
    assert(lower_text("FontFamily"@) =~= "fontfamily"@);
    reveal_strlit("FontWeight");
    reveal_strlit("fontweight");
    assert(is_ascii_text("FontWeight"@));
    assert(lower_text("FontWeight"@) =~= "fontweight"@);
    reveal_strlit("FontStyle");
    reveal_strlit("fontstyle");
    assert(is_ascii_text("FontStyle"@));
    assert(lower_text("FontStyle"@) =~= "fontstyle"@);
    reveal_strlit("LineHeight");
    reveal_strlit("lineheight");
    assert(is_ascii_text("LineHeight"@));
    assert(lower_text("LineHeight"@) =~= "lineheight"@);
    reveal_strlit("BorderTopWidth");
    reveal_strlit("bordertopwidth");
    assert(is_ascii_text("BorderTopWidth"@));
    assert(lower_text("BorderTopWidth"@) =~= "bordertopwidth"@);
    reveal_strlit("BorderRightWidth");
    reveal_strlit("borderrightwidth");
    assert(is_ascii_text("BorderRightWidth"@));
    assert(lower_text("BorderRightWidth"@) =~= "borderrightwidth"@);
    reveal_strlit("BorderBottomWidth");
    reveal_strlit("borderbottomwidth");
    assert(is_ascii_text("BorderBottomWidth"@));
    assert(lower_text("BorderBottomWidth"@) =~= "borderbottomwidth"@);
    reveal_strlit("BorderLeftWidth");
    reveal_strlit("borderleftwidth");
    assert(is_ascii_text("BorderLeftWidth"@));
    assert(lower_text("BorderLeftWidth"@) =~= "borderleftwidth"@);
    reveal_strlit("BorderTopColor");
    reveal_strlit("bordertopcolor");
    assert(is_ascii_text("BorderTopColor"@));
    assert(lower_text("BorderTopColor"@) =~= "bordertopcolor"@);
    reveal_strlit("BorderRightColor");
    reveal_strlit("borderrightcolor");
    assert(is_ascii_text("BorderRightColor"@));
    assert(lower_text("BorderRightColor"@) =~= "borderrightcolor"@);
    reveal_strlit("BorderBottomColor");
    reveal_strlit("borderbottomcolor");
    assert(is_ascii_text("BorderBottomColor"@));
    assert(lower_text("BorderBottomColor"@) =~= "borderbottomcolor"@);
    reveal_strlit("BorderLeftColor");
    reveal_strlit("borderleftcolor");
    assert(is_ascii_text("BorderLeftColor"@));
    assert(lower_text("BorderLeftColor"@) =~= "borderleftcolor"@);
    reveal_strlit("Display");
    reveal_strlit("display");
    assert(is_ascii_text("Display"@));
    assert(lower_text("Display"@) =~= "display"@);
    reveal_strlit("Width");
    reveal_strlit("width");
    assert(is_ascii_text("Width"@));
    assert(lower_text("Width"@) =~= "width"@);
    reveal_strlit("Height");
    reveal_strlit("height");
    assert(is_ascii_text("Height"@));
    assert(lower_text("Height"@) =~= "height"@);
    reveal_strlit("MaxWidth");
    reveal_strlit("maxwidth");
    assert(is_ascii_text("MaxWidth"@));
    assert(lower_text("MaxWidth"@) =~= "maxwidth"@);
    reveal_strlit("MaxHeight");
    reveal_strlit("maxheight");
    assert(is_ascii_text("MaxHeight"@));
    assert(lower_text("MaxHeight"@) =~= "maxheight"@);
    reveal_strlit("MinWidth");
    reveal_strlit("minwidth");
    assert(is_ascii_text("MinWidth"@));
    assert(lower_text("MinWidth"@) =~= "minwidth"@);
    reveal_strlit("MinHeight");
    reveal_strlit("minheight");
    assert(is_ascii_text("MinHeight"@));
    assert(lower_text("MinHeight"@) =~= "minheight"@);
    reveal_strlit("MarginTop");
    reveal_strlit("margintop");
    assert(is_ascii_text("MarginTop"@));
    assert(lower_text("MarginTop"@) =~= "margintop"@);
    reveal_strlit("MarginRight");
    reveal_strlit("marginright");
    assert(is_ascii_text("MarginRight"@));
    assert(lower_text("MarginRight"@) =~= "marginright"@);
    reveal_strlit("MarginBottom");
    reveal_strlit("marginbottom");
    assert(is_ascii_text("MarginBottom"@));
    assert(lower_text("MarginBottom"@) =~= "marginbottom"@);
    reveal_strlit("MarginLeft");
    reveal_strlit("marginleft");
    assert(is_ascii_text("MarginLeft"@));
    assert(lower_text("MarginLeft"@) =~= "marginleft"@);
    reveal_strlit("PaddingTop");
    reveal_strlit("paddingtop");
    assert(is_ascii_text("PaddingTop"@));
    assert(lower_text("PaddingTop"@) =~= "paddingtop"@);
    reveal_strlit("PaddingRight");
    reveal_strlit("paddingright");
    assert(is_ascii_text("PaddingRight"@));
    assert(lower_text("PaddingRight"@) =~= "paddingright"@);
    reveal_strlit("PaddingBottom");
    reveal_strlit("paddingbottom");
    assert(is_ascii_text("PaddingBottom"@));
    assert(lower_text("PaddingBottom"@) =~= "paddingbottom"@);
    reveal_strlit("PaddingLeft");
    reveal_strlit("paddingleft");
    assert(is_ascii_text("PaddingLeft"@));
    assert(lower_text("PaddingLeft"@) =~= "paddingleft"@);
    reveal_strlit("Flex");
    reveal_strlit("flex");
    assert(is_ascii_text("Flex"@));
    assert(lower_text("Flex"@) =~= "flex"@);
    reveal_strlit("FlexBasis");
    reveal_strlit("flexbasis");
    assert(is_ascii_text("FlexBasis"@));
    assert(lower_text("FlexBasis"@) =~= "flexbasis"@);
    reveal_strlit("FlexGrow");
    reveal_strlit("flexgrow");
    assert(is_ascii_text("FlexGrow"@));
    assert(lower_text("FlexGrow"@) =~= "flexgrow"@);
    reveal_strlit("FlexShrink");
    reveal_strlit("flexshrink");
    assert(is_ascii_text("FlexShrink"@));
    assert(lower_text("FlexShrink"@) =~= "flexshrink"@);
    reveal_strlit("AlignSelf");
    reveal_strlit("alignself");
    assert(is_ascii_text("AlignSelf"@));
    assert(lower_text("AlignSelf"@) =~= "alignself"@);
    reveal_strlit("Direction");
    reveal_strlit("direction");
    assert(is_ascii_text("Direction"@));
    assert(lower_text("Direction"@) =~= "direction"@);
    reveal_strlit("Position");
    reveal_strlit("position");
    assert(is_ascii_text("Position"@));
    assert(lower_text("Position"@) =~= "position"@);
    reveal_strlit("Overflow");
    reveal_strlit("overflow");
    assert(is_ascii_text("Overflow"@));
    assert(lower_text("Overflow"@) =~= "overflow"@);
    reveal_strlit("BorderTopLeftRadius");
    reveal_strlit("bordertopleftradius");
    assert(is_ascii_text("BorderTopLeftRadius"@));
    assert(lower_text("BorderTopLeftRadius"@) =~= "bordertopleftradius"@);
    reveal_strlit("BorderTopRightRadius");
    reveal_strlit("bordertoprightradius");
    assert(is_ascii_text("BorderTopRightRadius"@));
    assert(lower_text("BorderTopRightRadius"@) =~= "bordertoprightradius"@);
    reveal_strlit("BorderBottomRightRadius");
    reveal_strlit("borderbottomrightradius");
    assert(is_ascii_text("BorderBottomRightRadius"@));
    assert(lower_text("BorderBottomRightRadius"@) =~= "borderbottomrightradius"@);
    reveal_strlit("BorderBottomLeftRadius");
    reveal_strlit("borderbottomleftradius");
    assert(is_ascii_text("BorderBottomLeftRadius"@));
    assert(lower_text("BorderBottomLeftRadius"@) =~= "borderbottomleftradius"@);
    reveal_strlit("JustifyContent");
    reveal_strlit("justifycontent");
    assert(is_ascii_text("JustifyContent"@));
    assert(lower_text("JustifyContent"@) =~= "justifycontent"@);
    reveal_strlit("FlexDirection");
    reveal_strlit("flexdirection");
    assert(is_ascii_text("FlexDirection"@));
    assert(lower_text("FlexDirection"@) =~= "flexdirection"@);
    reveal_strlit("AlignContent");
    reveal_strlit("aligncontent");
    assert(is_ascii_text("AlignContent"@));
    assert(lower_text("AlignContent"@) =~= "aligncontent"@);
    reveal_strlit("AlignItems");
    reveal_strlit("alignitems");
    assert(is_ascii_text("AlignItems"@));
    assert(lower_text("AlignItems"@) =~= "alignitems"@);
    reveal_strlit("FlexWrap");
    reveal_strlit("flexwrap");
    assert(is_ascii_text("FlexWrap"@));
    assert(lower_text("FlexWrap"@) =~= "flexwrap"@);
    reveal_strlit("ColumnGap");
    reveal_strlit("columngap");
    assert(is_ascii_text("ColumnGap"@));
    assert(lower_text("ColumnGap"@) =~= "columngap"@);
    reveal_strlit("RowGap");
    reveal_strlit("rowgap");
    assert(is_ascii_text("RowGap"@));
    assert(lower_text("RowGap"@) =~= "rowgap"@);
    reveal_strlit("Top");
    reveal_strlit("top");
    assert(is_ascii_text("Top"@));
    assert(lower_text("Top"@) =~= "top"@);
    reveal_strlit("Right");
    reveal_strlit("right");
    assert(is_ascii_text("Right"@));
    assert(lower_text("Right"@) =~= "right"@);
    reveal_strlit("Bottom");
    reveal_strlit("bottom");
    assert(is_ascii_text("Bottom"@));
    assert(lower_text("Bottom"@) =~= "bottom"@);
    reveal_strlit("Left");
    reveal_strlit("left");
    assert(is_ascii_text("Left"@));
    assert(lower_text("Left"@) =~= "left"@);
    reveal_strlit("Transform");
    reveal_strlit("transform");
    assert(is_ascii_text("Transform"@));
    assert(lower_text("Transform"@) =~= "transform"@);
    reveal_strlit("AnimationName");
    reveal_strlit("animationname");
    assert(is_ascii_text("AnimationName"@));
    assert(lower_text("AnimationName"@) =~= "animationname"@);
    reveal_strlit("AnimationDuration");
    reveal_strlit("animationduration");
    assert(is_ascii_text("AnimationDuration"@));
    assert(lower_text("AnimationDuration"@) =~= "animationduration"@);
    reveal_strlit("AnimationIterationCount");
    reveal_strlit("animationiterationcount");
    assert(is_ascii_text("AnimationIterationCount"@));
    assert(lower_text("AnimationIterationCount"@) =~= "animationiterationcount"@);
}

/// Each property is found by its name in lower case without hyphens
/// (`margin-left` is looked up as `marginleft`).
#[verifier::rlimit(50)]
pub proof fn law_property_names()
    ensures
        key_lookup("color"@) == Some(StylePropKey::Color),
        key_lookup("backgroundcolor"@) == Some(StylePropKey::BackgroundColor),
        key_lookup("fontsize"@) == Some(StylePropKey::FontSize),
        key_lookup("fontfamily"@) == Some(StylePropKey::FontFamily),
        key_lookup("fontweight"@) == Some(StylePropKey::FontWeight),
        key_lookup("fontstyle"@) == Some(StylePropKey::FontStyle),
        key_lookup("lineheight"@) == Some(StylePropKey::LineHeight),
        key_lookup("bordertopwidth"@) == Some(StylePropKey::BorderTopWidth),
        key_lookup("borderrightwidth"@) == Some(StylePropKey::BorderRightWidth),
        key_lookup("borderbottomwidth"@) == Some(StylePropKey::BorderBottomWidth),
        key_lookup("borderleftwidth"@) == Some(StylePropKey::BorderLeftWidth),
        key_lookup("bordertopcolor"@) == Some(StylePropKey::BorderTopColor),
        key_lookup("borderrightcolor"@) == Some(StylePropKey::BorderRightColor),
        key_lookup("borderbottomcolor"@) == Some(StylePropKey::BorderBottomColor),
        key_lookup("borderleftcolor"@) == Some(StylePropKey::BorderLeftColor),
        key_lookup("display"@) == Some(StylePropKey::Display),
        key_lookup("width"@) == Some(StylePropKey::Width),
        key_lookup("height"@) == Some(StylePropKey::Height),
        key_lookup("maxwidth"@) == Some(StylePropKey::MaxWidth),
        key_lookup("maxheight"@) == Some(StylePropKey::MaxHeight),
        key_lookup("minwidth"@) == Some(StylePropKey::MinWidth),
        key_lookup("minheight"@) == Some(StylePropKey::MinHeight),
        key_lookup("margintop"@) == Some(StylePropKey::MarginTop),
        key_lookup("marginright"@) == Some(StylePropKey::MarginRight),
        key_lookup("marginbottom"@) == Some(StylePropKey::MarginBottom),
        key_lookup("marginleft"@) == Some(StylePropKey::MarginLeft),
        key_lookup("paddingtop"@) == Some(StylePropKey::PaddingTop),
        key_lookup("paddingright"@) == Some(StylePropKey::PaddingRight),
        key_lookup("paddingbottom"@) == Some(StylePropKey::PaddingBottom),
        key_lookup("paddingleft"@) == Some(StylePropKey::PaddingLeft),
        key_lookup("flex"@) == Some(StylePropKey::Flex),
        key_lookup("flexbasis"@) == Some(StylePropKey::FlexBasis),
        key_lookup("flexgrow"@) == Some(StylePropKey::FlexGrow),
        key_lookup("flexshrink"@) == Some(StylePropKey::FlexShrink),
        key_lookup("alignself"@) == Some(StylePropKey::AlignSelf),
        key_lookup("direction"@) == Some(StylePropKey::Direction),
        key_lookup("position"@) == Some(StylePropKey::Position),
        key_lookup("overflow"@) == Some(StylePropKey::Overflow),
        key_lookup("bordertopleftradius"@) == Some(StylePropKey::BorderTopLeftRadius),
        key_lookup("bordertoprightradius"@) == Some(StylePropKey::BorderTopRightRadius),
        key_lookup("borderbottomrightradius"@) == Some(StylePropKey::BorderBottomRightRadius),
        key_lookup("borderbottomleftradius"@) == Some(StylePropKey::BorderBottomLeftRadius),
        key_lookup("justifycontent"@) == Some(StylePropKey::JustifyContent),
        key_lookup("flexdirection"@) == Some(StylePropKey::FlexDirection),
        key_lookup("aligncontent"@) == Some(StylePropKey::AlignContent),
        key_lookup("alignitems"@) == Some(StylePropKey::AlignItems),
        key_lookup("flexwrap"@) == Some(StylePropKey::FlexWrap),
        key_lookup("columngap"@) == Some(StylePropKey::ColumnGap),
        key_lookup("rowgap"@) == Some(StylePropKey::RowGap),
        key_lookup("top"@) == Some(StylePropKey::Top),
        key_lookup("right"@) == Some(StylePropKey::Right),
        key_lookup("bottom"@) == Some(StylePropKey::Bottom),
        key_lookup("left"@) == Some(StylePropKey::Left),
        key_lookup("transform"@) == Some(StylePropKey::Transform),
        key_lookup("animationname"@) == Some(StylePropKey::AnimationName),
        key_lookup("animationduration"@) == Some(StylePropKey::AnimationDuration),
        key_lookup("animationiterationcount"@) == Some(StylePropKey::AnimationIterationCount),
{
    reveal_strlit("color");
    assert("color"@.len() == 5);
    assert("color"@[0] == 'c');
    assert("color"@[1] == 'o');
    assert("color"@[2] == 'l');
    assert("color"@[3] == 'o');
    assert("color"@[4] == 'r');
    reveal_strlit("backgroundcolor");
    assert("backgroundcolor"@.len() == 15);
    assert("backgroundcolor"@[0] == 'b');
    assert("backgroundcolor"@[1] == 'a');
    assert("backgroundcolor"@[2] == 'c');
    assert("backgroundcolor"@[3] == 'k');
    assert("backgroundcolor"@[4] == 'g');
    assert("backgroundcolor"@[5] == 'r');
    assert("backgroundcolor"@[6] == 'o');
    assert("backgroundcolor"@[7] == 'u');
    assert("backgroundcolor"@[8] == 'n');
    assert("backgroundcolor"@[9] == 'd');
    assert("backgroundcolor"@[10] == 'c');
    assert("backgroundcolor"@[11] == 'o');
    assert("backgroundcolor"@[12] == 'l');
    assert("backgroundcolor"@[13] == 'o');
    assert("backgroundcolor"@[14] == 'r');
    reveal_strlit("fontsize");
    assert("fontsize"@.len() == 8);
    assert("fontsize"@[0] == 'f');
    assert("fontsize"@[1] == 'o');
    assert("fontsize"@[2] == 'n');
    assert("fontsize"@[3] == 't');
    assert("fontsize"@[4] == 's');
    assert("fontsize"@[5] == 'i');
    assert("fontsize"@[6] == 'z');
    assert("fontsize"@[7] == 'e');
    reveal_strlit("fontfamily");
    assert("fontfamily"@.len() == 10);
    assert("fontfamily"@[0] == 'f');
    assert("fontfamily"@[1] == 'o');
    assert("fontfamily"@[2] == 'n');
    assert("fontfamily"@[3] == 't');
    assert("fontfamily"@[4] == 'f');
    assert("fontfamily"@[5] == 'a');
    assert("fontfamily"@[6] == 'm');
    assert("fontfamily"@[7] == 'i');
    assert("fontfamily"@[8] == 'l');
    assert("fontfamily"@[9] == 'y');
    reveal_strlit("fontweight");
    assert("fontweight"@.len() == 10);
    assert("fontweight"@[0] == 'f');
    assert("fontweight"@[1] == 'o');
    assert("fontweight"@[2] == 'n');
    assert("fontweight"@[3] == 't');
    assert("fontweight"@[4] == 'w');
    assert("fontweight"@[5] == 'e');
    assert("fontweight"@[6] == 'i');
    assert("fontweight"@[7] == 'g');
    assert("fontweight"@[8] == 'h');
    assert("fontweight"@[9] == 't');
    reveal_strlit("fontstyle");
    assert("fontstyle"@.len() == 9);
    assert("fontstyle"@[0] == 'f');
    assert("fontstyle"@[1] == 'o');
    assert("fontstyle"@[2] == 'n');
    assert("fontstyle"@[3] == 't');
    assert("fontstyle"@[4] == 's');
    assert("fontstyle"@[5] == 't');
    assert("fontstyle"@[6] == 'y');
    assert("fontstyle"@[7] == 'l');
    assert("fontstyle"@[8] == 'e');
    reveal_strlit("lineheight");
    assert("lineheight"@.len() == 10);
    assert("lineheight"@[0] == 'l');
    assert("lineheight"@[1] == 'i');
    assert("lineheight"@[2] == 'n');
    assert("lineheight"@[3] == 'e');
    assert("lineheight"@[4] == 'h');
    assert("lineheight"@[5] == 'e');
    assert("lineheight"@[6] == 'i');
    assert("lineheight"@[7] == 'g');
    assert("lineheight"@[8] == 'h');
    assert("lineheight"@[9] == 't');
    reveal_strlit("bordertopwidth");
    assert("bordertopwidth"@.len() == 14);
    assert("bordertopwidth"@[0] == 'b');
    assert("bordertopwidth"@[1] == 'o');
    assert("bordertopwidth"@[2] == 'r');
    assert("bordertopwidth"@[3] == 'd');
    assert("bordertopwidth"@[4] == 'e');
    assert("bordertopwidth"@[5] == 'r');
    assert("bordertopwidth"@[6] == 't');
    assert("bordertopwidth"@[7] == 'o');
    assert("bordertopwidth"@[8] == 'p');
    assert("bordertopwidth"@[9] == 'w');
    assert("bordertopwidth"@[10] == 'i');
    assert("bordertopwidth"@[11] == 'd');
    assert("bordertopwidth"@[12] == 't');
    assert("bordertopwidth"@[13] == 'h');
    reveal_strlit("borderrightwidth");
    assert("borderrightwidth"@.len() == 16);
    assert("borderrightwidth"@[0] == 'b');
    assert("borderrightwidth"@[1] == 'o');
    assert("borderrightwidth"@[2] == 'r');
    assert("borderrightwidth"@[3] == 'd');
    assert("borderrightwidth"@[4] == 'e');
    assert("borderrightwidth"@[5] == 'r');
    assert("borderrightwidth"@[6] == 'r');
    assert("borderrightwidth"@[7] == 'i');
    assert("borderrightwidth"@[8] == 'g');
    assert("borderrightwidth"@[9] == 'h');
    assert("borderrightwidth"@[10] == 't');
    assert("borderrightwidth"@[11] == 'w');
    assert("borderrightwidth"@[12] == 'i');
    assert("borderrightwidth"@[13] == 'd');
    assert("borderrightwidth"@[14] == 't');
    assert("borderrightwidth"@[15] == 'h');
    reveal_strlit("borderbottomwidth");
    assert("borderbottomwidth"@.len() == 17);
    assert("borderbottomwidth"@[0] == 'b');
    assert("borderbottomwidth"@[1] == 'o');
    assert("borderbottomwidth"@[2] == 'r');
    assert("borderbottomwidth"@[3] == 'd');
    assert("borderbottomwidth"@[4] == 'e');
    assert("borderbottomwidth"@[5] == 'r');
    assert("borderbottomwidth"@[6] == 'b');
    assert("borderbottomwidth"@[7] == 'o');
    assert("borderbottomwidth"@[8] == 't');
    assert("borderbottomwidth"@[9] == 't');
    assert("borderbottomwidth"@[10] == 'o');
    assert("borderbottomwidth"@[11] == 'm');
    assert("borderbottomwidth"@[12] == 'w');
    assert("borderbottomwidth"@[13] == 'i');
    assert("borderbottomwidth"@[14] == 'd');
    assert("borderbottomwidth"@[15] == 't');
    assert("borderbottomwidth"@[16] == 'h');
    reveal_strlit("borderleftwidth");
    assert("borderleftwidth"@.len() == 15);
    assert("borderleftwidth"@[0] == 'b');
    assert("borderleftwidth"@[1] == 'o');
    assert("borderleftwidth"@[2] == 'r');
    assert("borderleftwidth"@[3] == 'd');
    assert("borderleftwidth"@[4] == 'e');
    assert("borderleftwidth"@[5] == 'r');
    assert("borderleftwidth"@[6] == 'l');
    assert("borderleftwidth"@[7] == 'e');
    assert("borderleftwidth"@[8] == 'f');
    assert("borderleftwidth"@[9] == 't');
    assert("borderleftwidth"@[10] == 'w');
    assert("borderleftwidth"@[11] == 'i');
    assert("borderleftwidth"@[12] == 'd');
    assert("borderleftwidth"@[13] == 't');
    assert("borderleftwidth"@[14] == 'h');
    reveal_strlit("bordertopcolor");
    assert("bordertopcolor"@.len() == 14);
    assert("bordertopcolor"@[0] == 'b');
    assert("bordertopcolor"@[1] == 'o');
    assert("bordertopcolor"@[2] == 'r');
    assert("bordertopcolor"@[3] == 'd');
    assert("bordertopcolor"@[4] == 'e');
    assert("bordertopcolor"@[5] == 'r');
    assert("bordertopcolor"@[6] == 't');
    assert("bordertopcolor"@[7] == 'o');
    assert("bordertopcolor"@[8] == 'p');
    assert("bordertopcolor"@[9] == 'c');
    assert("bordertopcolor"@[10] == 'o');
    assert("bordertopcolor"@[11] == 'l');
    assert("bordertopcolor"@[12] == 'o');
    assert("bordertopcolor"@[13] == 'r');
    reveal_strlit("borderrightcolor");
    assert("borderrightcolor"@.len() == 16);
    assert("borderrightcolor"@[0] == 'b');
    assert("borderrightcolor"@[1] == 'o');
    assert("borderrightcolor"@[2] == 'r');
    assert("borderrightcolor"@[3] == 'd');
    assert("borderrightcolor"@[4] == 'e');
    assert("borderrightcolor"@[5] == 'r');
    assert("borderrightcolor"@[6] == 'r');
    assert("borderrightcolor"@[7] == 'i');
    assert("borderrightcolor"@[8] == 'g');
    assert("borderrightcolor"@[9] == 'h');
    assert("borderrightcolor"@[10] == 't');
    assert("borderrightcolor"@[11] == 'c');
    assert("borderrightcolor"@[12] == 'o');
    assert("borderrightcolor"@[13] == 'l');
    assert("borderrightcolor"@[14] == 'o');
    assert("borderrightcolor"@[15] == 'r');
    reveal_strlit("borderbottomcolor");
    assert("borderbottomcolor"@.len() == 17);
    assert("borderbottomcolor"@[0] == 'b');
    assert("borderbottomcolor"@[1] == 'o');
    assert("borderbottomcolor"@[2] == 'r');
    assert("borderbottomcolor"@[3] == 'd');
    assert("borderbottomcolor"@[4] == 'e');
    assert("borderbottomcolor"@[5] == 'r');
    assert("borderbottomcolor"@[6] == 'b');
    assert("borderbottomcolor"@[7] == 'o');
    assert("borderbottomcolor"@[8] == 't');
    assert("borderbottomcolor"@[9] == 't');
    assert("borderbottomcolor"@[10] == 'o');
    assert("borderbottomcolor"@[11] == 'm');
    assert("borderbottomcolor"@[12] == 'c');
    assert("borderbottomcolor"@[13] == 'o');
    assert("borderbottomcolor"@[14] == 'l');
    assert("borderbottomcolor"@[15] == 'o');
    assert("borderbottomcolor"@[16] == 'r');
    reveal_strlit("borderleftcolor");
    assert("borderleftcolor"@.len() == 15);
    assert("borderleftcolor"@[0] == 'b');
    assert("borderleftcolor"@[1] == 'o');
    assert("borderleftcolor"@[2] == 'r');
    assert("borderleftcolor"@[3] == 'd');
    assert("borderleftcolor"@[4] == 'e');
    assert("borderleftcolor"@[5] == 'r');
    assert("borderleftcolor"@[6] == 'l');
    assert("borderleftcolor"@[7] == 'e');
    assert("borderleftcolor"@[8] == 'f');
    assert("borderleftcolor"@[9] == 't');
    assert("borderleftcolor"@[10] == 'c');
    assert("borderleftcolor"@[11] == 'o');
    assert("borderleftcolor"@[12] == 'l');
    assert("borderleftcolor"@[13] == 'o');
    assert("borderleftcolor"@[14] == 'r');
    reveal_strlit("display");
    assert("display"@.len() == 7);
    assert("display"@[0] == 'd');
    assert("display"@[1] == 'i');
    assert("display"@[2] == 's');
    assert("display"@[3] == 'p');
    assert("display"@[4] == 'l');
    assert("display"@[5] == 'a');
    assert("display"@[6] == 'y');
    reveal_strlit("width");
    assert("width"@.len() == 5);
    assert("width"@[0] == 'w');
    assert("width"@[1] == 'i');
    assert("width"@[2] == 'd');
    assert("width"@[3] == 't');
    assert("width"@[4] == 'h');
    reveal_strlit("height");
    assert("height"@.len() == 6);
    assert("height"@[0] == 'h');
    assert("height"@[1] == 'e');
    assert("height"@[2] == 'i');
    assert("height"@[3] == 'g');
    assert("height"@[4] == 'h');
    assert("height"@[5] == 't');
    reveal_strlit("maxwidth");
    assert("maxwidth"@.len() == 8);
    assert("maxwidth"@[0] == 'm');
    assert("maxwidth"@[1] == 'a');
    assert("maxwidth"@[2] == 'x');
    assert("maxwidth"@[3] == 'w');
    assert("maxwidth"@[4] == 'i');
    assert("maxwidth"@[5] == 'd');
    assert("maxwidth"@[6] == 't');
    assert("maxwidth"@[7] == 'h');
    reveal_strlit("maxheight");
    assert("maxheight"@.len() == 9);
    assert("maxheight"@[0] == 'm');
    assert("maxheight"@[1] == 'a');
    assert("maxheight"@[2] == 'x');
    assert("maxheight"@[3] == 'h');
    assert("maxheight"@[4] == 'e');
    assert("maxheight"@[5] == 'i');
    assert("maxheight"@[6] == 'g');
    assert("maxheight"@[7] == 'h');
    assert("maxheight"@[8] == 't');
    reveal_strlit("minwidth");
    assert("minwidth"@.len() == 8);
    assert("minwidth"@[0] == 'm');
    assert("minwidth"@[1] == 'i');
    assert("minwidth"@[2] == 'n');
    assert("minwidth"@[3] == 'w');
    assert("minwidth"@[4] == 'i');
    assert("minwidth"@[5] == 'd');
    assert("minwidth"@[6] == 't');
    assert("minwidth"@[7] == 'h');
    reveal_strlit("minheight");
    assert("minheight"@.len() == 9);
    assert("minheight"@[0] == 'm');
    assert("minheight"@[1] == 'i');
    assert("minheight"@[2] == 'n');
    assert("minheight"@[3] == 'h');
    assert("minheight"@[4] == 'e');
    assert("minheight"@[5] == 'i');
    assert("minheight"@[6] == 'g');
    assert("minheight"@[7] == 'h');
    assert("minheight"@[8] == 't');
    reveal_strlit("margintop");
    assert("margintop"@.len() == 9);
    assert("margintop"@[0] == 'm');
    assert("margintop"@[1] == 'a');
    assert("margintop"@[2] == 'r');
    assert("margintop"@[3] == 'g');
    assert("margintop"@[4] == 'i');
    assert("margintop"@[5] == 'n');
    assert("margintop"@[6] == 't');
    assert("margintop"@[7] == 'o');
    assert("margintop"@[8] == 'p');
    reveal_strlit("marginright");
    assert("marginright"@.len() == 11);
    assert("marginright"@[0] == 'm');
    assert("marginright"@[1] == 'a');
    assert("marginright"@[2] == 'r');
    assert("marginright"@[3] == 'g');
    assert("marginright"@[4] == 'i');
    assert("marginright"@[5] == 'n');
    assert("marginright"@[6] == 'r');
    assert("marginright"@[7] == 'i');
    assert("marginright"@[8] == 'g');
    assert("marginright"@[9] == 'h');
    assert("marginright"@[10] == 't');
    reveal_strlit("marginbottom");
    assert("marginbottom"@.len() == 12);
    assert("marginbottom"@[0] == 'm');
    assert("marginbottom"@[1] == 'a');
    assert("marginbottom"@[2] == 'r');
    assert("marginbottom"@[3] == 'g');
    assert("marginbottom"@[4] == 'i');
    assert("marginbottom"@[5] == 'n');
    assert("marginbottom"@[6] == 'b');
    assert("marginbottom"@[7] == 'o');
    assert("marginbottom"@[8] == 't');
    assert("marginbottom"@[9] == 't');
    assert("marginbottom"@[10] == 'o');
    assert("marginbottom"@[11] == 'm');
    reveal_strlit("marginleft");
    assert("marginleft"@.len() == 10);
    assert("marginleft"@[0] == 'm');
    assert("marginleft"@[1] == 'a');
    assert("marginleft"@[2] == 'r');
    assert("marginleft"@[3] == 'g');
    assert("marginleft"@[4] == 'i');
    assert("marginleft"@[5] == 'n');
    assert("marginleft"@[6] == 'l');
    assert("marginleft"@[7] == 'e');
    assert("marginleft"@[8] == 'f');
    assert("marginleft"@[9] == 't');
    reveal_strlit("paddingtop");
    assert("paddingtop"@.len() == 10);
    assert("paddingtop"@[0] == 'p');
    assert("paddingtop"@[1] == 'a');
    assert("paddingtop"@[2] == 'd');
    assert("paddingtop"@[3] == 'd');
    assert("paddingtop"@[4] == 'i');
    assert("paddingtop"@[5] == 'n');
    assert("paddingtop"@[6] == 'g');
    assert("paddingtop"@[7] == 't');
    assert("paddingtop"@[8] == 'o');
    assert("paddingtop"@[9] == 'p');
    reveal_strlit("paddingright");
    assert("paddingright"@.len() == 12);
    assert("paddingright"@[0] == 'p');
    assert("paddingright"@[1] == 'a');
    assert("paddingright"@[2] == 'd');
    assert("paddingright"@[3] == 'd');
    assert("paddingright"@[4] == 'i');
    assert("paddingright"@[5] == 'n');
    assert("paddingright"@[6] == 'g');
    assert("paddingright"@[7] == 'r');
    assert("paddingright"@[8] == 'i');
    assert("paddingright"@[9] == 'g');
    assert("paddingright"@[10] == 'h');
    assert("paddingright"@[11] == 't');
    reveal_strlit("paddingbottom");
    assert("paddingbottom"@.len() == 13);
    assert("paddingbottom"@[0] == 'p');
    assert("paddingbottom"@[1] == 'a');
    assert("paddingbottom"@[2] == 'd');
    assert("paddingbottom"@[3] == 'd');
    assert("paddingbottom"@[4] == 'i');
    assert("paddingbottom"@[5] == 'n');
    assert("paddingbottom"@[6] == 'g');
    assert("paddingbottom"@[7] == 'b');
    assert("paddingbottom"@[8] == 'o');
    assert("paddingbottom"@[9] == 't');
    assert("paddingbottom"@[10] == 't');
    assert("paddingbottom"@[11] == 'o');
    assert("paddingbottom"@[12] == 'm');
    reveal_strlit("paddingleft");
    assert("paddingleft"@.len() == 11);
    assert("paddingleft"@[0] == 'p');
    assert("paddingleft"@[1] == 'a');
    assert("paddingleft"@[2] == 'd');
    assert("paddingleft"@[3] == 'd');
    assert("paddingleft"@[4] == 'i');
    assert("paddingleft"@[5] == 'n');
    assert("paddingleft"@[6] == 'g');
    assert("paddingleft"@[7] == 'l');
    assert("paddingleft"@[8] == 'e');
    assert("paddingleft"@[9] == 'f');
    assert("paddingleft"@[10] == 't');
    reveal_strlit("flex");
    assert("flex"@.len() == 4);
    assert("flex"@[0] == 'f');
    assert("flex"@[1] == 'l');
    assert("flex"@[2] == 'e');
    assert("flex"@[3] == 'x');
    reveal_strlit("flexbasis");
    assert("flexbasis"@.len() == 9);
    assert("flexbasis"@[0] == 'f');
    assert("flexbasis"@[1] == 'l');
    assert("flexbasis"@[2] == 'e');
    assert("flexbasis"@[3] == 'x');
    assert("flexbasis"@[4] == 'b');
    assert("flexbasis"@[5] == 'a');
    assert("flexbasis"@[6] == 's');
    assert("flexbasis"@[7] == 'i');
    assert("flexbasis"@[8] == 's');
    reveal_strlit("flexgrow");
    assert("flexgrow"@.len() == 8);
    assert("flexgrow"@[0] == 'f');
    assert("flexgrow"@[1] == 'l');
    assert("flexgrow"@[2] == 'e');
    assert("flexgrow"@[3] == 'x');
    assert("flexgrow"@[4] == 'g');
    assert("flexgrow"@[5] == 'r');
    assert("flexgrow"@[6] == 'o');
    assert("flexgrow"@[7] == 'w');
    reveal_strlit("flexshrink");
    assert("flexshrink"@.len() == 10);
    assert("flexshrink"@[0] == 'f');
    assert("flexshrink"@[1] == 'l');
    assert("flexshrink"@[2] == 'e');
    assert("flexshrink"@[3] == 'x');
    assert("flexshrink"@[4] == 's');
    assert("flexshrink"@[5] == 'h');
    assert("flexshrink"@[6] == 'r');
    assert("flexshrink"@[7] == 'i');
    assert("flexshrink"@[8] == 'n');
    assert("flexshrink"@[9] == 'k');
    reveal_strlit("alignself");
    assert("alignself"@.len() == 9);
    assert("alignself"@[0] == 'a');
    assert("alignself"@[1] == 'l');
    assert("alignself"@[2] == 'i');
    assert("alignself"@[3] == 'g');
    assert("alignself"@[4] == 'n');
    assert("alignself"@[5] == 's');
    assert("alignself"@[6] == 'e');
    assert("alignself"@[7] == 'l');
    assert("alignself"@[8] == 'f');
    reveal_strlit("direction");
    assert("direction"@.len() == 9);
    assert("direction"@[0] == 'd');
    assert("direction"@[1] == 'i');
    assert("direction"@[2] == 'r');
    assert("direction"@[3] == 'e');
    assert("direction"@[4] == 'c');
    assert("direction"@[5] == 't');
    assert("direction"@[6] == 'i');
    assert("direction"@[7] == 'o');
    assert("direction"@[8] == 'n');
    reveal_strlit("position");
    assert("position"@.len() == 8);
    assert("position"@[0] == 'p');
    assert("position"@[1] == 'o');
    assert("position"@[2] == 's');
    assert("position"@[3] == 'i');
    assert("position"@[4] == 't');
    assert("position"@[5] == 'i');
    assert("position"@[6] == 'o');
    assert("position"@[7] == 'n');
    reveal_strlit("overflow");
    assert("overflow"@.len() == 8);
    assert("overflow"@[0] == 'o');
    assert("overflow"@[1] == 'v');
    assert("overflow"@[2] == 'e');
    assert("overflow"@[3] == 'r');
    assert("overflow"@[4] == 'f');
    assert("overflow"@[5] == 'l');
    assert("overflow"@[6] == 'o');
    assert("overflow"@[7] == 'w');
    reveal_strlit("bordertopleftradius");
    assert("bordertopleftradius"@.len() == 19);
    assert("bordertopleftradius"@[0] == 'b');
    assert("bordertopleftradius"@[1] == 'o');
    assert("bordertopleftradius"@[2] == 'r');
    assert("bordertopleftradius"@[3] == 'd');
    assert("bordertopleftradius"@[4] == 'e');
    assert("bordertopleftradius"@[5] == 'r');
    assert("bordertopleftradius"@[6] == 't');
    assert("bordertopleftradius"@[7] == 'o');
    assert("bordertopleftradius"@[8] == 'p');
    assert("bordertopleftradius"@[9] == 'l');
    assert("bordertopleftradius"@[10] == 'e');
    assert("bordertopleftradius"@[11] == 'f');
    assert("bordertopleftradius"@[12] == 't');
    assert("bordertopleftradius"@[13] == 'r');
    assert("bordertopleftradius"@[14] == 'a');
    assert("bordertopleftradius"@[15] == 'd');
    assert("bordertopleftradius"@[16] == 'i');
    assert("bordertopleftradius"@[17] == 'u');
    assert("bordertopleftradius"@[18] == 's');
    reveal_strlit("bordertoprightradius");
    assert("bordertoprightradius"@.len() == 20);
    assert("bordertoprightradius"@[0] == 'b');
    assert("bordertoprightradius"@[1] == 'o');
    assert("bordertoprightradius"@[2] == 'r');
    assert("bordertoprightradius"@[3] == 'd');
    assert("bordertoprightradius"@[4] == 'e');
    assert("bordertoprightradius"@[5] == 'r');
    assert("bordertoprightradius"@[6] == 't');
    assert("bordertoprightradius"@[7] == 'o');
    assert("bordertoprightradius"@[8] == 'p');
    assert("bordertoprightradius"@[9] == 'r');
    assert("bordertoprightradius"@[10] == 'i');
    assert("bordertoprightradius"@[11] == 'g');
    assert("bordertoprightradius"@[12] == 'h');
    assert("bordertoprightradius"@[13] == 't');
    assert("bordertoprightradius"@[14] == 'r');
    assert("bordertoprightradius"@[15] == 'a');
    assert("bordertoprightradius"@[16] == 'd');
    assert("bordertoprightradius"@[17] == 'i');
    assert("bordertoprightradius"@[18] == 'u');
    assert("bordertoprightradius"@[19] == 's');
    reveal_strlit("borderbottomrightradius");
    assert("borderbottomrightradius"@.len() == 23);
    assert("borderbottomrightradius"@[0] == 'b');
    assert("borderbottomrightradius"@[1] == 'o');
    assert("borderbottomrightradius"@[2] == 'r');
    assert("borderbottomrightradius"@[3] == 'd');
    assert("borderbottomrightradius"@[4] == 'e');
    assert("borderbottomrightradius"@[5] == 'r');
    assert("borderbottomrightradius"@[6] == 'b');
    assert("borderbottomrightradius"@[7] == 'o');
    assert("borderbottomrightradius"@[8] == 't');
    assert("borderbottomrightradius"@[9] == 't');
    assert("borderbottomrightradius"@[10] == 'o');
    assert("borderbottomrightradius"@[11] == 'm');
    assert("borderbottomrightradius"@[12] == 'r');
    assert("borderbottomrightradius"@[13] == 'i');
    assert("borderbottomrightradius"@[14] == 'g');
    assert("borderbottomrightradius"@[15] == 'h');
    assert("borderbottomrightradius"@[16] == 't');
    assert("borderbottomrightradius"@[17] == 'r');
    assert("borderbottomrightradius"@[18] == 'a');
    assert("borderbottomrightradius"@[19] == 'd');
    assert("borderbottomrightradius"@[20] == 'i');
    assert("borderbottomrightradius"@[21] == 'u');
    assert("borderbottomrightradius"@[22] == 's');
    reveal_strlit("borderbottomleftradius");
    assert("borderbottomleftradius"@.len() == 22);
    assert("borderbottomleftradius"@[0] == 'b');
    assert("borderbottomleftradius"@[1] == 'o');
    assert("borderbottomleftradius"@[2] == 'r');
    assert("borderbottomleftradius"@[3] == 'd');
    assert("borderbottomleftradius"@[4] == 'e');
    assert("borderbottomleftradius"@[5] == 'r');
    assert("borderbottomleftradius"@[6] == 'b');
    assert("borderbottomleftradius"@[7] == 'o');
    assert("borderbottomleftradius"@[8] == 't');
    assert("borderbottomleftradius"@[9] == 't');
    assert("borderbottomleftradius"@[10] == 'o');
    assert("borderbottomleftradius"@[11] == 'm');
    assert("borderbottomleftradius"@[12] == 'l');
    assert("borderbottomleftradius"@[13] == 'e');
    assert("borderbottomleftradius"@[14] == 'f');
    assert("borderbottomleftradius"@[15] == 't');
    assert("borderbottomleftradius"@[16] == 'r');
    assert("borderbottomleftradius"@[17] == 'a');
    assert("borderbottomleftradius"@[18] == 'd');
    assert("borderbottomleftradius"@[19] == 'i');
    assert("borderbottomleftradius"@[20] == 'u');
    assert("borderbottomleftradius"@[21] == 's');
    reveal_strlit("justifycontent");
    assert("justifycontent"@.len() == 14);
    assert("justifycontent"@[0] == 'j');
    assert("justifycontent"@[1] == 'u');
    assert("justifycontent"@[2] == 's');
    assert("justifycontent"@[3] == 't');
    assert("justifycontent"@[4] == 'i');
    assert("justifycontent"@[5] == 'f');
    assert("justifycontent"@[6] == 'y');
    assert("justifycontent"@[7] == 'c');
    assert("justifycontent"@[8] == 'o');
    assert("justifycontent"@[9] == 'n');
    assert("justifycontent"@[10] == 't');
    assert("justifycontent"@[11] == 'e');
    assert("justifycontent"@[12] == 'n');
    assert("justifycontent"@[13] == 't');
    reveal_strlit("flexdirection");
    assert("flexdirection"@.len() == 13);
    assert("flexdirection"@[0] == 'f');
    assert("flexdirection"@[1] == 'l');
    assert("flexdirection"@[2] == 'e');
    assert("flexdirection"@[3] == 'x');
    assert("flexdirection"@[4] == 'd');
    assert("flexdirection"@[5] == 'i');
    assert("flexdirection"@[6] == 'r');
    assert("flexdirection"@[7] == 'e');
    assert("flexdirection"@[8] == 'c');
    assert("flexdirection"@[9] == 't');
    assert("flexdirection"@[10] == 'i');
    assert("flexdirection"@[11] == 'o');
    assert("flexdirection"@[12] == 'n');
    reveal_strlit("aligncontent");
    assert("aligncontent"@.len() == 12);
    assert("aligncontent"@[0] == 'a');
    assert("aligncontent"@[1] == 'l');
    assert("aligncontent"@[2] == 'i');
    assert("aligncontent"@[3] == 'g');
    assert("aligncontent"@[4] == 'n');
    assert("aligncontent"@[5] == 'c');
    assert("aligncontent"@[6] == 'o');
    assert("aligncontent"@[7] == 'n');
    assert("aligncontent"@[8] == 't');
    assert("aligncontent"@[9] == 'e');
    assert("aligncontent"@[10] == 'n');
    assert("aligncontent"@[11] == 't');
    reveal_strlit("alignitems");
    assert("alignitems"@.len() == 10);
    assert("alignitems"@[0] == 'a');
    assert("alignitems"@[1] == 'l');
    assert("alignitems"@[2] == 'i');
    assert("alignitems"@[3] == 'g');
    assert("alignitems"@[4] == 'n');
    assert("alignitems"@[5] == 'i');
    assert("alignitems"@[6] == 't');
    assert("alignitems"@[7] == 'e');
    assert("alignitems"@[8] == 'm');
    assert("alignitems"@[9] == 's');
    reveal_strlit("flexwrap");
    assert("flexwrap"@.len() == 8);
    assert("flexwrap"@[0] == 'f');
    assert("flexwrap"@[1] == 'l');
    assert("flexwrap"@[2] == 'e');
    assert("flexwrap"@[3] == 'x');
    assert("flexwrap"@[4] == 'w');
    assert("flexwrap"@[5] == 'r');
    assert("flexwrap"@[6] == 'a');
    assert("flexwrap"@[7] == 'p');
    reveal_strlit("columngap");
    assert("columngap"@.len() == 9);
    assert("columngap"@[0] == 'c');
    assert("columngap"@[1] == 'o');
    assert("columngap"@[2] == 'l');
    assert("columngap"@[3] == 'u');
    assert("columngap"@[4] == 'm');
    assert("columngap"@[5] == 'n');
    assert("columngap"@[6] == 'g');
    assert("columngap"@[7] == 'a');
    assert("columngap"@[8] == 'p');
    reveal_strlit("rowgap");
    assert("rowgap"@.len() == 6);
    assert("rowgap"@[0] == 'r');
    assert("rowgap"@[1] == 'o');
    assert("rowgap"@[2] == 'w');
    assert("rowgap"@[3] == 'g');
    assert("rowgap"@[4] == 'a');
    assert("rowgap"@[5] == 'p');
    reveal_strlit("top");
    assert("top"@.len() == 3);
    assert("top"@[0] == 't');
    assert("top"@[1] == 'o');
    assert("top"@[2] == 'p');
    reveal_strlit("right");
    assert("right"@.len() == 5);
    assert("right"@[0] == 'r');
    assert("right"@[1] == 'i');
    assert("right"@[2] == 'g');
    assert("right"@[3] == 'h');
    assert("right"@[4] == 't');
    reveal_strlit("bottom");
    assert("bottom"@.len() == 6);
    assert("bottom"@[0] == 'b');
    assert("bottom"@[1] == 'o');
    assert("bottom"@[2] == 't');
    assert("bottom"@[3] == 't');
    assert("bottom"@[4] == 'o');
    assert("bottom"@[5] == 'm');
    reveal_strlit("left");
    assert("left"@.len() == 4);
    assert("left"@[0] == 'l');
    assert("left"@[1] == 'e');
    assert("left"@[2] == 'f');
    assert("left"@[3] == 't');
    reveal_strlit("transform");
    assert("transform"@.len() == 9);
    assert("transform"@[0] == 't');
    assert("transform"@[1] == 'r');
    assert("transform"@[2] == 'a');
    assert("transform"@[3] == 'n');
    assert("transform"@[4] == 's');
    assert("transform"@[5] == 'f');
    assert("transform"@[6] == 'o');
    assert("transform"@[7] == 'r');
    assert("transform"@[8] == 'm');
    reveal_strlit("animationname");
    assert("animationname"@.len() == 13);
    assert("animationname"@[0] == 'a');
    assert("animationname"@[1] == 'n');
    assert("animationname"@[2] == 'i');
    assert("animationname"@[3] == 'm');
    assert("animationname"@[4] == 'a');
    assert("animationname"@[5] == 't');
    assert("animationname"@[6] == 'i');
    assert("animationname"@[7] == 'o');
    assert("animationname"@[8] == 'n');
    assert("animationname"@[9] == 'n');
    assert("animationname"@[10] == 'a');
    assert("animationname"@[11] == 'm');
    assert("animationname"@[12] == 'e');
    reveal_strlit("animationduration");
    assert("animationduration"@.len() == 17);
    assert("animationduration"@[0] == 'a');
    assert("animationduration"@[1] == 'n');
    assert("animationduration"@[2] == 'i');
    assert("animationduration"@[3] == 'm');
    assert("animationduration"@[4] == 'a');
    assert("animationduration"@[5] == 't');
    assert("animationduration"@[6] == 'i');
    assert("animationduration"@[7] == 'o');
    assert("animationduration"@[8] == 'n');
    assert("animationduration"@[9] == 'd');
    assert("animationduration"@[10] == 'u');
    assert("animationduration"@[11] == 'r');
    assert("animationduration"@[12] == 'a');
    assert("animationduration"@[13] == 't');
    assert("animationduration"@[14] == 'i');
    assert("animationduration"@[15] == 'o');
    assert("animationduration"@[16] == 'n');
    reveal_strlit("animationiterationcount");
    assert("animationiterationcount"@.len() == 23);
    assert("animationiterationcount"@[0] == 'a');
    assert("animationiterationcount"@[1] == 'n');
    assert("animationiterationcount"@[2] == 'i');
    assert("animationiterationcount"@[3] == 'm');
    assert("animationiterationcount"@[4] == 'a');
    assert("animationiterationcount"@[5] == 't');
    assert("animationiterationcount"@[6] == 'i');
    assert("animationiterationcount"@[7] == 'o');
    assert("animationiterationcount"@[8] == 'n');
    assert("animationiterationcount"@[9] == 'i');
    assert("animationiterationcount"@[10] == 't');
    assert("animationiterationcount"@[11] == 'e');
    assert("animationiterationcount"@[12] == 'r');
    assert("animationiterationcount"@[13] == 'a');
    assert("animationiterationcount"@[14] == 't');
    assert("animationiterationcount"@[15] == 'i');
    assert("animationiterationcount"@[16] == 'o');
    assert("animationiterationcount"@[17] == 'n');
    assert("animationiterationcount"@[18] == 'c');
    assert("animationiterationcount"@[19] == 'o');
    assert("animationiterationcount"@[20] == 'u');
    assert("animationiterationcount"@[21] == 'n');
    assert("animationiterationcount"@[22] == 't');
}

/// Every property is parsed back from its own name: `StylePropKey::parse`
/// of `k.name()` (its name written in code, such as `MarginLeft`) gives `k`,
/// whatever the case the name is written in.
pub proof fn law_parse_name_round_trip(k: StylePropKey)
    ensures
        key_lookup(lower_text(key_name(k))) == Some(k),
{
    law_property_names();
    lemma_lower_names();
}

impl StylePropKey {
    /// Finds the property whose name equals `key` once both are lower-cased.
    /// An unknown key gives `None`.
    pub fn parse(key: &str) -> (r: Option<StylePropKey>)
        ensures
            r == key_lookup(lower_text(key@)),
    {
        let lowered = to_lowercase(key);
        let l = lowered.as_str();
        if str_eq(l, "color") {
            return Some(StylePropKey::Color);
        }
        if str_eq(l, "backgroundcolor") {
            return Some(StylePropKey::BackgroundColor);
        }
        if str_eq(l, "fontsize") {
            return Some(StylePropKey::FontSize);
        }
        if str_eq(l, "fontfamily") {
            return Some(StylePropKey::FontFamily);
        }
        if str_eq(l, "fontweight") {
            return Some(StylePropKey::FontWeight);
        }
        if str_eq(l, "fontstyle") {
            return Some(StylePropKey::FontStyle);
        }
        if str_eq(l, "lineheight") {
            return Some(StylePropKey::LineHeight);
        }
        if str_eq(l, "bordertopwidth") {
            return Some(StylePropKey::BorderTopWidth);
        }
        if str_eq(l, "borderrightwidth") {
            return Some(StylePropKey::BorderRightWidth);
        }
        if str_eq(l, "borderbottomwidth") {
            return Some(StylePropKey::BorderBottomWidth);
        }
        if str_eq(l, "borderleftwidth") {
            return Some(StylePropKey::BorderLeftWidth);
        }
        if str_eq(l, "bordertopcolor") {
            return Some(StylePropKey::BorderTopColor);
        }
        if str_eq(l, "borderrightcolor") {
            return Some(StylePropKey::BorderRightColor);
        }
        if str_eq(l, "borderbottomcolor") {
            return Some(StylePropKey::BorderBottomColor);
        }
        if str_eq(l, "borderleftcolor") {
            return Some(StylePropKey::BorderLeftColor);
        }
        if str_eq(l, "display") {
            return Some(StylePropKey::Display);
        }
        if str_eq(l, "width") {
            return Some(StylePropKey::Width);
        }
        if str_eq(l, "height") {
            return Some(StylePropKey::Height);
        }
        if str_eq(l, "maxwidth") {
            return Some(StylePropKey::MaxWidth);
        }
        if str_eq(l, "maxheight") {
            return Some(StylePropKey::MaxHeight);
        }
        if str_eq(l, "minwidth") {
            return Some(StylePropKey::MinWidth);
        }
        if str_eq(l, "minheight") {
            return Some(StylePropKey::MinHeight);
        }
        if str_eq(l, "margintop") {
            return Some(StylePropKey::MarginTop);
        }
        if str_eq(l, "marginright") {
            return Some(StylePropKey::MarginRight);
        }
        if str_eq(l, "marginbottom") {
            return Some(StylePropKey::MarginBottom);
        }
        if str_eq(l, "marginleft") {
            return Some(StylePropKey::MarginLeft);
        }
        if str_eq(l, "paddingtop") {
            return Some(StylePropKey::PaddingTop);
        }
        if str_eq(l, "paddingright") {
            return Some(StylePropKey::PaddingRight);
        }
        if str_eq(l, "paddingbottom") {
            return Some(StylePropKey::PaddingBottom);
        }
        if str_eq(l, "paddingleft") {
            return Some(StylePropKey::PaddingLeft);
        }
        if str_eq(l, "flex") {
            return Some(StylePropKey::Flex);
        }
        if str_eq(l, "flexbasis") {
            return Some(StylePropKey::FlexBasis);
        }
        if str_eq(l, "flexgrow") {
            return Some(StylePropKey::FlexGrow);
        }
        if str_eq(l, "flexshrink") {
            return Some(StylePropKey::FlexShrink);
        }
        if str_eq(l, "alignself") {
            return Some(StylePropKey::AlignSelf);
        }
        if str_eq(l, "direction") {
            return Some(StylePropKey::Direction);
        }
        if str_eq(l, "position") {
            return Some(StylePropKey::Position);
        }
        if str_eq(l, "overflow") {
            return Some(StylePropKey::Overflow);
        }
        if str_eq(l, "bordertopleftradius") {
            return Some(StylePropKey::BorderTopLeftRadius);
        }
        if str_eq(l, "bordertoprightradius") {
            return Some(StylePropKey::BorderTopRightRadius);
        }
        if str_eq(l, "borderbottomrightradius") {
            return Some(StylePropKey::BorderBottomRightRadius);
        }
        if str_eq(l, "borderbottomleftradius") {
            return Some(StylePropKey::BorderBottomLeftRadius);
        }
        if str_eq(l, "justifycontent") {
            return Some(StylePropKey::JustifyContent);
        }
        if str_eq(l, "flexdirection") {
            return Some(StylePropKey::FlexDirection);
        }
        if str_eq(l, "aligncontent") {
            return Some(StylePropKey::AlignContent);
        }
        if str_eq(l, "alignitems") {
            return Some(StylePropKey::AlignItems);
        }
        if str_eq(l, "flexwrap") {
            return Some(StylePropKey::FlexWrap);
        }
        if str_eq(l, "columngap") {
            return Some(StylePropKey::ColumnGap);
        }
        if str_eq(l, "rowgap") {
            return Some(StylePropKey::RowGap);
        }
        if str_eq(l, "top") {
            return Some(StylePropKey::Top);
        }
        if str_eq(l, "right") {
            return Some(StylePropKey::Right);
        }
        if str_eq(l, "bottom") {
            return Some(StylePropKey::Bottom);
        }
        if str_eq(l, "left") {
            return Some(StylePropKey::Left);
        }
        if str_eq(l, "transform") {
            return Some(StylePropKey::Transform);
        }
        if str_eq(l, "animationname") {
            return Some(StylePropKey::AnimationName);
        }
        if str_eq(l, "animationduration") {
            return Some(StylePropKey::AnimationDuration);
        }
        if str_eq(l, "animationiterationcount") {
            return Some(StylePropKey::AnimationIterationCount);
        }
        None
    }

    pub fn name(&self) -> (r: &str)
        ensures
            r@ == key_name(*self),
    {
        match self {
            StylePropKey::Color => "Color",
            StylePropKey::BackgroundColor => "BackgroundColor",
            StylePropKey::FontSize => "FontSize",
            StylePropKey::FontFamily => "FontFamily",
            StylePropKey::FontWeight => "FontWeight",
            StylePropKey::FontStyle => "FontStyle",
            StylePropKey::LineHeight => "LineHeight",
            StylePropKey::BorderTopWidth => "BorderTopWidth",
            StylePropKey::BorderRightWidth => "BorderRightWidth",
            StylePropKey::BorderBottomWidth => "BorderBottomWidth",
            StylePropKey::BorderLeftWidth => "BorderLeftWidth",
            StylePropKey::BorderTopColor => "BorderTopColor",
            StylePropKey::BorderRightColor => "BorderRightColor",
            StylePropKey::BorderBottomColor => "BorderBottomColor",
            StylePropKey::BorderLeftColor => "BorderLeftColor",
            StylePropKey::Display => "Display",
            StylePropKey::Width => "Width",
            StylePropKey::Height => "Height",
            StylePropKey::MaxWidth => "MaxWidth",
            StylePropKey::MaxHeight => "MaxHeight",
            StylePropKey::MinWidth => "MinWidth",
            StylePropKey::MinHeight => "MinHeight",
            StylePropKey::MarginTop => "MarginTop",
            StylePropKey::MarginRight => "MarginRight",
            StylePropKey::MarginBottom => "MarginBottom",
            StylePropKey::MarginLeft => "MarginLeft",
            StylePropKey::PaddingTop => "PaddingTop",
            StylePropKey::PaddingRight => "PaddingRight",
            StylePropKey::PaddingBottom => "PaddingBottom",
            StylePropKey::PaddingLeft => "PaddingLeft",
            StylePropKey::Flex => "Flex",
            StylePropKey::FlexBasis => "FlexBasis",
            StylePropKey::FlexGrow => "FlexGrow",
            StylePropKey::FlexShrink => "FlexShrink",
            StylePropKey::AlignSelf => "AlignSelf",
            StylePropKey::Direction => "Direction",
            StylePropKey::Position => "Position",
            StylePropKey::Overflow => "Overflow",
            StylePropKey::BorderTopLeftRadius => "BorderTopLeftRadius",
            StylePropKey::BorderTopRightRadius => "BorderTopRightRadius",
            StylePropKey::BorderBottomRightRadius => "BorderBottomRightRadius",
            StylePropKey::BorderBottomLeftRadius => "BorderBottomLeftRadius",
            StylePropKey::JustifyContent => "JustifyContent",
            StylePropKey::FlexDirection => "FlexDirection",
            StylePropKey::AlignContent => "AlignContent",
            StylePropKey::AlignItems => "AlignItems",
            StylePropKey::FlexWrap => "FlexWrap",
            StylePropKey::ColumnGap => "ColumnGap",
            StylePropKey::RowGap => "RowGap",
            StylePropKey::Top => "Top",
            StylePropKey::Right => "Right",
            StylePropKey::Bottom => "Bottom",
            StylePropKey::Left => "Left",
            StylePropKey::Transform => "Transform",
            StylePropKey::AnimationName => "AnimationName",
            StylePropKey::AnimationDuration => "AnimationDuration",
            StylePropKey::AnimationIterationCount => "AnimationIterationCount",
        }
    }
}

} // verus!
