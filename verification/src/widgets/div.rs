//! The plain building blocks: a box, a rounded box and a run of text.
use vstd::prelude::*;
use vstd::string::StrSliceExecFns;
use crate::component::RenderContext;
use crate::renderables::rect::Instance as RectInstance;
use crate::renderables::rect::InstanceModel as RectModel;
use crate::renderables::text::Instance as TextInstance;
use crate::renderables::text::InstanceModel as TextInstanceModel;
use crate::renderables::types::{Borders, CompositeOperation, Corners};
use crate::renderables::{renderable_models, Rect, Renderable, RenderableModel};
use crate::style::{suited, StyleKey, StyleVal, Style, Styled};
use crate::types::{extent, to_extent, Color, Scale, MAX_EXTENT};

verus! {

/// A box that groups its children, with an optional background and border.
#[derive(Clone, Copy, Debug, PartialEq, Eq, Structural)]
pub struct Div {
    pub background: Option<Color>,
    pub border_color: Color,
    pub border_width: i64,
    pub radius: Corners,
}

impl Div {
    pub open spec fn plain() -> Div {
        Div {
            background: None,
            border_color: Color::transparent(),
            border_width: 0,
            radius: Corners::zero(),
        }
    }

    /// A box that draws nothing.
    pub fn new() -> (d: Div)
        ensures
            d == Div::plain(),
    {
        Div {
            background: None,
            border_color: Color::clear(),
            border_width: 0,
            radius: Corners::none(),
        }
    }

    /// Sets the background colour.
    pub fn bg(self, color: Color) -> (d: Div)
        ensures
            d == (Div { background: Some(color), ..self }),
    {
        Div { background: Some(color), ..self }
    }

    /// Sets the border: its colour, its width and the corner radii.
    pub fn border(self, color: Color, width: i64, radius: Corners) -> (d: Div)
        ensures
            d == (Div { border_color: color, border_width: width, radius, ..self }),
    {
        Div { border_color: color, border_width: width, radius, ..self }
    }

    /// Whether the box draws anything.
    pub open spec fn visible(self) -> bool {
        self.background is Some || self.border_width > 0
    }

    /// The rectangle that the box draws into `context`.
    pub open spec fn instance(self, context: RenderContext) -> RectModel {
        RectModel {
            pos: context.aabb.pos,
            scale: context.aabb.size,
            color: match self.background {
                Some(c) => c,
                None => Color::transparent(),
            },
            radius: self.radius,
            border_color: self.border_color,
            border_size: Borders {
                top: self.border_width,
                left: self.border_width,
                bottom: self.border_width,
                right: self.border_width,
            },
            bg_image: None,
            gradient: None,
            composite_operation: CompositeOperation::SourceOver,
            scissor: None,
        }
    }

    /// What the box draws: one rectangle, or nothing if it has neither
    /// background nor border.
    pub open spec fn rendered(self, context: RenderContext) -> Option<Seq<RenderableModel>> {
        if self.visible() {
            Some(seq![RenderableModel::Rect(self.instance(context))])
        } else {
            None
        }
    }

    pub fn render(&self, context: RenderContext) -> (r: Option<Vec<Renderable>>)
        ensures
            r is Some == self.rendered(context) is Some,
            r matches Some(v) ==> self.rendered(context) == Some(renderable_models(v@)),
    {
        if self.background.is_some() || self.border_width > 0 {
            let instance = RectInstance {
                pos: context.aabb.pos,
                scale: context.aabb.size,
                color: match self.background {
                    Some(c) => c,
                    None => Color::clear(),
                },
                radius: self.radius,
                border_color: self.border_color,
                border_size: Borders::all(self.border_width),
                bg_image: None,
                gradient: None,
                composite_operation: CompositeOperation::SourceOver,
                scissor: None,
            };
            let mut v: Vec<Renderable> = Vec::new();
            v.push(Renderable::Rect(Rect::from_instance_data(instance)));
            assert(renderable_models(v@) =~= self.rendered(context).unwrap());
            Some(v)
        } else {
            None
        }
    }
}

/// A box with rounded corners that can switch clipping on or off for what
/// is drawn after it.
#[derive(Clone, Copy, Debug, PartialEq, Eq, Structural)]
pub struct RoundedRect {
    pub background_color: Color,
    pub border_color: Color,
    pub border_width: Borders,
    pub radius: Corners,
    pub scissor: Option<bool>,
    pub swipe: i64,
}

impl Default for RoundedRect {
    /// A transparent box without border.
    fn default() -> (r: RoundedRect)
        ensures
            r == RoundedRect::plain(),
    {
        RoundedRect::new()
    }
}

impl RoundedRect {
    pub open spec fn plain() -> RoundedRect {
        RoundedRect {
            background_color: Color::transparent(),
            border_color: Color::transparent(),
            border_width: Borders::zero(),
            radius: Corners::zero(),
            scissor: None,
            swipe: 0,
        }
    }

    /// A transparent box without border.
    pub fn new() -> (r: RoundedRect)
        ensures
            r == RoundedRect::plain(),
    {
        RoundedRect {
            background_color: Color::clear(),
            border_color: Color::clear(),
            border_width: Borders::none(),
            radius: Corners::none(),
            scissor: None,
            swipe: 0,
        }
    }

    pub open spec fn instance(self, context: RenderContext) -> RectModel {
        RectModel {
            pos: context.aabb.pos,
            scale: context.aabb.size,
            color: self.background_color,
            radius: self.radius,
            border_color: self.border_color,
            border_size: self.border_width,
            bg_image: None,
            gradient: None,
            composite_operation: CompositeOperation::SourceOver,
            scissor: self.scissor,
        }
    }

    /// What the box draws: one rectangle of its size.
    pub open spec fn rendered(self, context: RenderContext) -> Option<Seq<RenderableModel>> {
        Some(seq![RenderableModel::Rect(self.instance(context))])
    }

    pub fn render(&self, context: RenderContext) -> (r: Option<Vec<Renderable>>)
        ensures
            r matches Some(v) && self.rendered(context) == Some(renderable_models(v@)),
    {
        let instance = RectInstance {
            pos: context.aabb.pos,
            scale: context.aabb.size,
            color: self.background_color,
            radius: self.radius,
            border_color: self.border_color,
            border_size: self.border_width,
            bg_image: None,
            gradient: None,
            composite_operation: CompositeOperation::SourceOver,
            scissor: self.scissor,
        };
        let mut v: Vec<Renderable> = Vec::new();
        v.push(Renderable::Rect(Rect::from_instance_data(instance)));
        assert(renderable_models(v@) =~= self.rendered(context).unwrap());
        Some(v)
    }
}

/// A run of text.
#[derive(Debug)]
pub struct Text {
    pub label: String,
    pub styled: Styled,
}

/// The mathematical value of a `Text`.
pub struct TextModel {
    pub label: Seq<char>,
    pub styled: Styled,
}

impl View for Text {
    type V = TextModel;

    open spec fn view(&self) -> TextModel {
        TextModel { label: self.label@, styled: self.styled }
    }
}

impl Text {
    pub fn new(label: String) -> (t: Text)
        ensures
            t == (Text { label, styled: Styled::plain() }),
    {
        Text { label, styled: Styled::new() }
    }

    /// Sets a property on this text.
    pub fn style(self, key: StyleKey, val: StyleVal) -> (t: Text)
        requires
            val.suits(key),
        ensures
            t == (Text { styled: self.styled.set_to(key, val), ..self }),
    {
        let Text { label, styled } = self;
        Text { label, styled: styled.style(key, val) }
    }

    /// Sets a property on this text if `val` holds a value.
    pub fn maybe_style(self, key: StyleKey, val: Option<StyleVal>) -> (t: Text)
        requires
            suited(val, key),
        ensures
            t == (Text { styled: self.styled.maybe(key, val), ..self }),
    {
        let Text { label, styled } = self;
        Text { label, styled: styled.maybe_style(key, val) }
    }

    /// Gives this text the layer of its class.
    pub fn with_class(self, class: Style) -> (t: Text)
        ensures
            t == (Text { styled: Styled { class, ..self.styled }, ..self }),
    {
        let Text { label, styled } = self;
        Text { label, styled: styled.with_class(class) }
    }

}

impl TextModel {
    /// The size of the text: every character is taken to be half as wide
    /// as the font is high, and the text to stand on one line.
    pub open spec fn natural(self) -> Scale {
        let size = extent(self.styled.spec_number(StyleKey::FontSize) as int);
        Scale { width: extent(self.label.len() * size / 2) as i64, height: size as i64 }
    }

    pub open spec fn instance(self, context: RenderContext) -> TextInstanceModel {
        TextInstanceModel {
            pos: context.aabb.pos,
            scale: context.aabb.size,
            text: self.label,
            color: self.styled.spec_color(StyleKey::TextColor),
            font_size: self.styled.spec_number(StyleKey::FontSize),
        }
    }

    /// What the text draws: itself, in its resolved colour and size.
    pub open spec fn rendered(self, context: RenderContext) -> Option<Seq<RenderableModel>> {
        Some(seq![RenderableModel::Text(self.instance(context))])
    }

}

impl Text {
    pub fn natural_size(&self) -> (r: Scale)
        ensures
            r == self@.natural(),
    {
        let size = to_extent(self.styled.number(StyleKey::FontSize));
        let n = self.label.as_str().unicode_len();
        assert(n * size <= usize::MAX * MAX_EXTENT) by (nonlinear_arith)
            requires
                0 <= n <= usize::MAX,
                0 <= size <= MAX_EXTENT,
        ;
        let w = (n as u128 * size as u128) / 2;
        Scale {
            width: if w > MAX_EXTENT as u128 {
                MAX_EXTENT
            } else {
                w as i64
            },
            height: size,
        }
    }

    pub fn render(&self, context: RenderContext) -> (r: Option<Vec<Renderable>>)
        ensures
            r matches Some(v) && self@.rendered(context) == Some(renderable_models(v@)),
    {
        let instance = TextInstance {
            pos: context.aabb.pos,
            scale: context.aabb.size,
            text: self.label.clone(),
            color: self.styled.color(StyleKey::TextColor),
            font_size: self.styled.number(StyleKey::FontSize),
        };
        let mut v: Vec<Renderable> = Vec::new();
        v.push(Renderable::Text(crate::renderables::Text::from_instance_data(instance)));
        assert(renderable_models(v@) =~= self@.rendered(context).unwrap());
        Some(v)
    }

    /// A copy of this text.
    pub fn duplicate(&self) -> (t: Text)
        ensures
            t == *self,
    {
        Text { label: self.label.clone(), styled: self.styled }
    }
}

} // verus!
