//! Style resolution: the value of a property of a component is looked up
//! in three layers.  What is set on the instance wins over what the class
//! sets, and that wins over the base theme.
use vstd::prelude::*;
use crate::layout::Size;
use crate::types::Color;

verus! {

/// Where text goes inside its line.
#[derive(Clone, Copy, Debug, PartialEq, Eq, Structural)]
pub enum HorizontalPosition {
    Left,
    Center,
    Right,
}

#[derive(Clone, Copy, Debug, PartialEq, Eq, Structural)]
pub enum FontWeight {
    Light,
    Normal,
    Medium,
    Semibold,
    Bold,
}

/// The properties that components read.
#[derive(Clone, Copy, Debug, PartialEq, Eq, Structural)]
pub enum StyleKey {
    Radius,
    Padding,
    ActiveColor,
    HighlightColor,
    BackgroundColor,
    BorderColor,
    BorderWidth,
    FontSize,
    TextColor,
    HAlignment,
    Font,
    FontWeight,
    LineHeight,
    Size,
}

/// A typed value of a property.
#[derive(Clone, Copy, Debug, PartialEq, Eq, Structural)]
pub enum StyleVal {
    Number(i64),
    Color(Color),
    Size(Size),
    HorizontalPosition(HorizontalPosition),
    FontWeight(FontWeight),
    /// A font, by the number under which it was registered.
    Font(u32),
}

/// The types that the value of a property can have.
#[derive(Clone, Copy, Debug, PartialEq, Eq, Structural)]
pub enum ValueKind {
    Number,
    Color,
    Size,
    HorizontalPosition,
    FontWeight,
    Font,
}

impl StyleKey {
    /// The type of the values of this property.
    pub open spec fn kind(self) -> ValueKind {
        match self {
            StyleKey::Radius | StyleKey::Padding | StyleKey::BorderWidth | StyleKey::FontSize
            | StyleKey::LineHeight => ValueKind::Number,
            StyleKey::ActiveColor | StyleKey::HighlightColor | StyleKey::BackgroundColor
            | StyleKey::BorderColor | StyleKey::TextColor => ValueKind::Color,
            StyleKey::HAlignment => ValueKind::HorizontalPosition,
            StyleKey::Font => ValueKind::Font,
            StyleKey::FontWeight => ValueKind::FontWeight,
            StyleKey::Size => ValueKind::Size,
        }
    }

    pub fn value_kind(&self) -> (k: ValueKind)
        ensures
            k == self.kind(),
    {
        match self {
            StyleKey::Radius | StyleKey::Padding | StyleKey::BorderWidth | StyleKey::FontSize
            | StyleKey::LineHeight => ValueKind::Number,
            StyleKey::ActiveColor | StyleKey::HighlightColor | StyleKey::BackgroundColor
            | StyleKey::BorderColor | StyleKey::TextColor => ValueKind::Color,
            StyleKey::HAlignment => ValueKind::HorizontalPosition,
            StyleKey::Font => ValueKind::Font,
            StyleKey::FontWeight => ValueKind::FontWeight,
            StyleKey::Size => ValueKind::Size,
        }
    }

    /// Whether every component has a value for this property: the theme
    /// sets one.
    pub open spec fn required(self) -> bool {
        base_style(self) is Some
    }
}

impl StyleVal {
    /// The type of this value.
    pub open spec fn kind(self) -> ValueKind {
        match self {
            StyleVal::Number(_) => ValueKind::Number,
            StyleVal::Color(_) => ValueKind::Color,
            StyleVal::Size(_) => ValueKind::Size,
            StyleVal::HorizontalPosition(_) => ValueKind::HorizontalPosition,
            StyleVal::FontWeight(_) => ValueKind::FontWeight,
            StyleVal::Font(_) => ValueKind::Font,
        }
    }

    pub fn value_kind(&self) -> (k: ValueKind)
        ensures
            k == self.kind(),
    {
        match self {
            StyleVal::Number(_) => ValueKind::Number,
            StyleVal::Color(_) => ValueKind::Color,
            StyleVal::Size(_) => ValueKind::Size,
            StyleVal::HorizontalPosition(_) => ValueKind::HorizontalPosition,
            StyleVal::FontWeight(_) => ValueKind::FontWeight,
            StyleVal::Font(_) => ValueKind::Font,
        }
    }

    /// Whether this value is of the type that `key` takes.
    pub open spec fn suits(self, key: StyleKey) -> bool {
        self.kind() == key.kind()
    }

    pub fn fits(&self, key: StyleKey) -> (r: bool)
        ensures
            r == self.suits(key),
    {
        self.value_kind() == key.value_kind()
    }

    /// The number that a numeric value holds.
    pub open spec fn spec_number(self) -> i64 {
        self->Number_0
    }

    /// The number this value holds.  A value of another type holds none
    /// and is left out.
    pub fn number(&self) -> (r: i64)
        requires
            self is Number,
        ensures
            *self == StyleVal::Number(r),
            r == self.spec_number(),
    {
        match self {
            StyleVal::Number(v) => *v,
            _ => vstd::pervasive::unreached(),
        }
    }

    /// The colour that a colour value holds.
    pub open spec fn spec_color(self) -> Color {
        self->Color_0
    }

    /// The colour this value holds.  A value of another type holds none
    /// and is left out.
    pub fn color(&self) -> (r: Color)
        requires
            self is Color,
        ensures
            *self == StyleVal::Color(r),
            r == self.spec_color(),
    {
        match self {
            StyleVal::Color(c) => *c,
            _ => vstd::pervasive::unreached(),
        }
    }

    /// The size that a size value holds.
    pub open spec fn spec_size(self) -> Size {
        self->Size_0
    }

    /// The size this value holds.  A value of another type holds none
    /// and is left out.
    pub fn size(&self) -> (r: Size)
        requires
            self is Size,
        ensures
            *self == StyleVal::Size(r),
            r == self.spec_size(),
    {
        match self {
            StyleVal::Size(s) => *s,
            _ => vstd::pervasive::unreached(),
        }
    }
}

/// Whether `val`, if it is a value, is of the type that `key` takes.
pub open spec fn suited(val: Option<StyleVal>, key: StyleKey) -> bool {
    val matches Some(v) ==> v.suits(key)
}

/// One layer of style: for every property at most one value, of the type
/// that the property takes.  A layer is made empty and filled by `set`,
/// which takes no value of another type, so no layer ever holds one.
#[derive(Clone, Copy, Debug, PartialEq, Eq, Structural)]
pub struct Style {
    pub(crate) radius: Option<StyleVal>,
    pub(crate) padding: Option<StyleVal>,
    pub(crate) active_color: Option<StyleVal>,
    pub(crate) highlight_color: Option<StyleVal>,
    pub(crate) background_color: Option<StyleVal>,
    pub(crate) border_color: Option<StyleVal>,
    pub(crate) border_width: Option<StyleVal>,
    pub(crate) font_size: Option<StyleVal>,
    pub(crate) text_color: Option<StyleVal>,
    pub(crate) h_alignment: Option<StyleVal>,
    pub(crate) font: Option<StyleVal>,
    pub(crate) font_weight: Option<StyleVal>,
    pub(crate) line_height: Option<StyleVal>,
    pub(crate) size: Option<StyleVal>,
}

impl Style {
    /// Every value of the layer is of the type that its property takes.
    #[verifier::type_invariant]
    pub closed spec fn well_typed(self) -> bool {
        &&& suited(self.radius, StyleKey::Radius)
        &&& suited(self.padding, StyleKey::Padding)
        &&& suited(self.active_color, StyleKey::ActiveColor)
        &&& suited(self.highlight_color, StyleKey::HighlightColor)
        &&& suited(self.background_color, StyleKey::BackgroundColor)
        &&& suited(self.border_color, StyleKey::BorderColor)
        &&& suited(self.border_width, StyleKey::BorderWidth)
        &&& suited(self.font_size, StyleKey::FontSize)
        &&& suited(self.text_color, StyleKey::TextColor)
        &&& suited(self.h_alignment, StyleKey::HAlignment)
        &&& suited(self.font, StyleKey::Font)
        &&& suited(self.font_weight, StyleKey::FontWeight)
        &&& suited(self.line_height, StyleKey::LineHeight)
        &&& suited(self.size, StyleKey::Size)
    }

    pub closed spec fn empty() -> Style {
        Style {
            radius: None,
            padding: None,
            active_color: None,
            highlight_color: None,
            background_color: None,
            border_color: None,
            border_width: None,
            font_size: None,
            text_color: None,
            h_alignment: None,
            font: None,
            font_weight: None,
            line_height: None,
            size: None,
        }
    }

    /// A layer that sets nothing.
    pub fn new() -> (s: Style)
        ensures
            s == Style::empty(),
    {
        Style {
            radius: None,
            padding: None,
            active_color: None,
            highlight_color: None,
            background_color: None,
            border_color: None,
            border_width: None,
            font_size: None,
            text_color: None,
            h_alignment: None,
            font: None,
            font_weight: None,
            line_height: None,
            size: None,
        }
    }

    /// What this layer sets for `key`.
    pub closed spec fn lookup(self, key: StyleKey) -> Option<StyleVal> {
        match key {
            StyleKey::Radius => self.radius,
            StyleKey::Padding => self.padding,
            StyleKey::ActiveColor => self.active_color,
            StyleKey::HighlightColor => self.highlight_color,
            StyleKey::BackgroundColor => self.background_color,
            StyleKey::BorderColor => self.border_color,
            StyleKey::BorderWidth => self.border_width,
            StyleKey::FontSize => self.font_size,
            StyleKey::TextColor => self.text_color,
            StyleKey::HAlignment => self.h_alignment,
            StyleKey::Font => self.font,
            StyleKey::FontWeight => self.font_weight,
            StyleKey::LineHeight => self.line_height,
            StyleKey::Size => self.size,
        }
    }

    pub fn get(&self, key: StyleKey) -> (r: Option<StyleVal>)
        ensures
            r == self.lookup(key),
            suited(r, key),
    {
        proof {
            use_type_invariant(self);
        }
        match key {
            StyleKey::Radius => self.radius,
            StyleKey::Padding => self.padding,
            StyleKey::ActiveColor => self.active_color,
            StyleKey::HighlightColor => self.highlight_color,
            StyleKey::BackgroundColor => self.background_color,
            StyleKey::BorderColor => self.border_color,
            StyleKey::BorderWidth => self.border_width,
            StyleKey::FontSize => self.font_size,
            StyleKey::TextColor => self.text_color,
            StyleKey::HAlignment => self.h_alignment,
            StyleKey::Font => self.font,
            StyleKey::FontWeight => self.font_weight,
            StyleKey::LineHeight => self.line_height,
            StyleKey::Size => self.size,
        }
    }

    /// This layer with `key` set to `val`, or cleared.  The value is of
    /// the type that `key` takes; one of another type is a mistake of the
    /// component that sets it and is left out.
    pub closed spec fn with(self, key: StyleKey, val: Option<StyleVal>) -> Style {
        match key {
            StyleKey::Radius => Style { radius: val, ..self },
            StyleKey::Padding => Style { padding: val, ..self },
            StyleKey::ActiveColor => Style { active_color: val, ..self },
            StyleKey::HighlightColor => Style { highlight_color: val, ..self },
            StyleKey::BackgroundColor => Style { background_color: val, ..self },
            StyleKey::BorderColor => Style { border_color: val, ..self },
            StyleKey::BorderWidth => Style { border_width: val, ..self },
            StyleKey::FontSize => Style { font_size: val, ..self },
            StyleKey::TextColor => Style { text_color: val, ..self },
            StyleKey::HAlignment => Style { h_alignment: val, ..self },
            StyleKey::Font => Style { font: val, ..self },
            StyleKey::FontWeight => Style { font_weight: val, ..self },
            StyleKey::LineHeight => Style { line_height: val, ..self },
            StyleKey::Size => Style { size: val, ..self },
        }
    }

    pub fn set(self, key: StyleKey, val: Option<StyleVal>) -> (r: Style)
        requires
            suited(val, key),
        ensures
            r == self.with(key, val),
            r.lookup(key) == val,
            forall|other: StyleKey| other != key ==> r.lookup(other) == self.lookup(other),
    {
        proof {
            use_type_invariant(self);
        }
        match key {
            StyleKey::Radius => Style { radius: val, ..self },
            StyleKey::Padding => Style { padding: val, ..self },
            StyleKey::ActiveColor => Style { active_color: val, ..self },
            StyleKey::HighlightColor => Style { highlight_color: val, ..self },
            StyleKey::BackgroundColor => Style { background_color: val, ..self },
            StyleKey::BorderColor => Style { border_color: val, ..self },
            StyleKey::BorderWidth => Style { border_width: val, ..self },
            StyleKey::FontSize => Style { font_size: val, ..self },
            StyleKey::TextColor => Style { text_color: val, ..self },
            StyleKey::HAlignment => Style { h_alignment: val, ..self },
            StyleKey::Font => Style { font: val, ..self },
            StyleKey::FontWeight => Style { font_weight: val, ..self },
            StyleKey::LineHeight => Style { line_height: val, ..self },
            StyleKey::Size => Style { size: val, ..self },
        }
    }
}

/// The value of `key` in the base theme.  The theme sets the properties
/// that a component cannot do without; `Font`, `FontWeight` and
/// `LineHeight` are left to the renderer unless a layer sets them.
pub open spec fn base_style(key: StyleKey) -> Option<StyleVal> {
    match key {
        StyleKey::Radius => Some(StyleVal::Number(4)),
        StyleKey::Padding => Some(StyleVal::Number(2)),
        StyleKey::ActiveColor => Some(StyleVal::Color(Color { r: 45, g: 138, b: 255, a: 255 })),
        StyleKey::HighlightColor => Some(
            StyleVal::Color(Color { r: 97, g: 97, b: 97, a: 255 }),
        ),
        StyleKey::BackgroundColor => Some(
            StyleVal::Color(Color { r: 25, g: 25, b: 25, a: 255 }),
        ),
        StyleKey::BorderColor => Some(StyleVal::Color(Color { r: 83, g: 83, b: 83, a: 255 })),
        StyleKey::BorderWidth => Some(StyleVal::Number(1)),
        StyleKey::FontSize => Some(StyleVal::Number(12)),
        StyleKey::TextColor => Some(StyleVal::Color(Color { r: 255, g: 255, b: 255, a: 255 })),
        StyleKey::HAlignment => Some(StyleVal::HorizontalPosition(HorizontalPosition::Left)),
        StyleKey::Font => None,
        StyleKey::FontWeight => None,
        StyleKey::LineHeight => None,
        StyleKey::Size => Some(
            StyleVal::Size(
                Size {
                    width: crate::layout::Dimension::Px(24),
                    height: crate::layout::Dimension::Px(24),
                },
            ),
        ),
    }
}

pub fn base(key: StyleKey) -> (r: Option<StyleVal>)
    ensures
        r == base_style(key),
{
    match key {
        StyleKey::Radius => Some(StyleVal::Number(4)),
        StyleKey::Padding => Some(StyleVal::Number(2)),
        StyleKey::ActiveColor => Some(StyleVal::Color(Color::rgb(45, 138, 255))),
        StyleKey::HighlightColor => Some(StyleVal::Color(Color::rgb(97, 97, 97))),
        StyleKey::BackgroundColor => Some(StyleVal::Color(Color::rgb(25, 25, 25))),
        StyleKey::BorderColor => Some(StyleVal::Color(Color::rgb(83, 83, 83))),
        StyleKey::BorderWidth => Some(StyleVal::Number(1)),
        StyleKey::FontSize => Some(StyleVal::Number(12)),
        StyleKey::TextColor => Some(StyleVal::Color(Color::rgb(255, 255, 255))),
        StyleKey::HAlignment => Some(StyleVal::HorizontalPosition(HorizontalPosition::Left)),
        StyleKey::Font => None,
        StyleKey::FontWeight => None,
        StyleKey::LineHeight => None,
        StyleKey::Size => Some(StyleVal::Size(Size::px(24, 24))),
    }
}

/// The style of one component instance: what its class sets and what is
/// set on the instance itself.
#[derive(Clone, Copy, Debug, PartialEq, Eq, Structural)]
pub struct Styled {
    pub class: Style,
    pub style_overrides: Style,
}

impl Styled {
    pub open spec fn plain() -> Styled {
        Styled { class: Style::empty(), style_overrides: Style::empty() }
    }

    /// A component that sets nothing itself.
    pub fn new() -> (s: Styled)
        ensures
            s == Styled::plain(),
    {
        Styled { class: Style::new(), style_overrides: Style::new() }
    }

    /// The style with `key` set on the instance.
    pub open spec fn set_to(self, key: StyleKey, val: StyleVal) -> Styled {
        Styled { style_overrides: self.style_overrides.with(key, Some(val)), ..self }
    }

    /// The style with `key` set on the instance if `val` holds a value.
    pub open spec fn maybe(self, key: StyleKey, val: Option<StyleVal>) -> Styled {
        match val {
            Some(v) => self.set_to(key, v),
            None => self,
        }
    }

    /// The value of `key`: the instance wins over the class, the class over the theme.
    pub open spec fn resolved(self, key: StyleKey) -> Option<StyleVal> {
        match self.style_overrides.lookup(key) {
            Some(v) => Some(v),
            None => match self.class.lookup(key) {
                Some(v) => Some(v),
                None => base_style(key),
            },
        }
    }

    /// The value of `key`, if any layer or the theme sets it; it is of
    /// the type that `key` takes.
    pub fn style_val(&self, key: StyleKey) -> (r: Option<StyleVal>)
        ensures
            r == self.resolved(key),
            suited(r, key),
            key.required() ==> r is Some,
    {
        match self.style_overrides.get(key) {
            Some(v) => Some(v),
            None => match self.class.get(key) {
                Some(v) => Some(v),
                None => base(key),
            },
        }
    }

    /// The number that a numeric `key` resolves to.
    pub open spec fn spec_number(self, key: StyleKey) -> i64 {
        self.resolved(key)->Some_0.spec_number()
    }

    /// The number that `key` resolves to.  The property takes numbers and
    /// is one that the theme sets; to ask for the number of any other
    /// property is a mistake of the component and is left out.
    pub fn number(&self, key: StyleKey) -> (r: i64)
        requires
            key.kind() == ValueKind::Number,
            key.required(),
        ensures
            self.resolved(key) == Some(StyleVal::Number(r)),
            r == self.spec_number(key),
    {
        match self.style_val(key) {
            Some(v) => v.number(),
            None => vstd::pervasive::unreached(),
        }
    }

    /// The colour that a colour `key` resolves to.
    pub open spec fn spec_color(self, key: StyleKey) -> Color {
        self.resolved(key)->Some_0.spec_color()
    }

    /// The colour that `key` resolves to.  The property takes colours and
    /// is one that the theme sets.
    pub fn color(&self, key: StyleKey) -> (r: Color)
        requires
            key.kind() == ValueKind::Color,
            key.required(),
        ensures
            self.resolved(key) == Some(StyleVal::Color(r)),
            r == self.spec_color(key),
    {
        match self.style_val(key) {
            Some(v) => v.color(),
            None => vstd::pervasive::unreached(),
        }
    }

    /// The size that a size `key` resolves to.
    pub open spec fn spec_size(self, key: StyleKey) -> Size {
        self.resolved(key)->Some_0.spec_size()
    }

    /// The size that `key` resolves to.  The property takes sizes and is
    /// one that the theme sets.
    pub fn size(&self, key: StyleKey) -> (r: Size)
        requires
            key.kind() == ValueKind::Size,
            key.required(),
        ensures
            self.resolved(key) == Some(StyleVal::Size(r)),
            r == self.spec_size(key),
    {
        match self.style_val(key) {
            Some(v) => v.size(),
            None => vstd::pervasive::unreached(),
        }
    }

    /// Sets `key` on the instance, to a value of the type that it takes.
    pub fn style(self, key: StyleKey, val: StyleVal) -> (r: Styled)
        requires
            val.suits(key),
        ensures
            r == self.set_to(key, val),
            r.resolved(key) == Some(val),
    {
        Styled { style_overrides: self.style_overrides.set(key, Some(val)), ..self }
    }

    /// Sets `key` on the instance if `val` holds a value, else leaves it alone.
    pub fn maybe_style(self, key: StyleKey, val: Option<StyleVal>) -> (r: Styled)
        requires
            suited(val, key),
        ensures
            r == self.maybe(key, val),
    {
        match val {
            Some(v) => self.style(key, v),
            None => self,
        }
    }

    /// Gives the instance the layer of its class.
    pub fn with_class(self, class: Style) -> (r: Styled)
        ensures
            r == (Styled { class, ..self }),
    {
        Styled { class, ..self }
    }
}

/// The order of the layers is fixed: a value set on the instance hides
/// the class and the theme, and a value set by the class hides the theme.
pub proof fn lemma_resolution_order(s: Styled, key: StyleKey)
    ensures
        s.style_overrides.lookup(key) is Some ==> s.resolved(key) == s.style_overrides.lookup(key),
        s.style_overrides.lookup(key) is None && s.class.lookup(key) is Some ==> s.resolved(key)
            == s.class.lookup(key),
        s.style_overrides.lookup(key) is None && s.class.lookup(key) is None ==> s.resolved(key)
            == base_style(key),
{
}

/// Resolution keeps the types: where every layer holds values of the
/// types that its properties take, every property resolves to a value of
/// its own type, and a property that the theme sets resolves to a value.
pub proof fn lemma_resolution_is_typed(s: Styled, key: StyleKey)
    requires
        s.class.well_typed(),
        s.style_overrides.well_typed(),
    ensures
        suited(s.resolved(key), key),
        key.required() ==> s.resolved(key) is Some,
{
}

/// A layer holds for a property what was last set for it, and setting
/// one property leaves the others alone; an empty layer holds nothing.
pub proof fn lemma_layer_holds_what_was_set(
    layer: Style,
    key: StyleKey,
    val: Option<StyleVal>,
    other: StyleKey,
)
    ensures
        layer.with(key, val).lookup(key) == val,
        other != key ==> layer.with(key, val).lookup(other) == layer.lookup(other),
        Style::empty().lookup(other) is None,
        Style::empty().well_typed(),
        layer.well_typed() && suited(val, key) ==> layer.with(key, val).well_typed(),
{
}

} // verus!
