//! A bitmap, registered under a name or loaded when it is drawn.
use vstd::prelude::*;
use vstd::string::StringSliceAdditionalSpecFns;
use crate::component::{mixed_bytes, ComponentHasher, RenderContext};
use crate::renderables::image::{Instance, InstanceModel};
use crate::renderables::{renderable_models, Renderable, RenderableModel};
use crate::style::{StyleKey, Styled};

verus! {

#[derive(Debug)]
pub struct Image {
    pub name: String,
    pub dynamic_load_from: Option<String>,
    pub styled: Styled,
}

impl Default for Image {
    /// The image without a name.
    fn default() -> (i: Image)
        ensures
            i.name@ == Seq::<char>::empty(),
            i.dynamic_load_from is None,
            i.styled == Styled::plain(),
    {
        Image { name: String::new(), dynamic_load_from: None, styled: Styled::new() }
    }
}

impl Image {
    pub open spec fn plain(name: String) -> Image {
        Image { name, dynamic_load_from: None, styled: Styled::plain() }
    }

    /// The registered image `name`.
    pub fn new(name: String) -> (i: Image)
        ensures
            i == Image::plain(name),
    {
        Image { name, dynamic_load_from: None, styled: Styled::new() }
    }

    /// Has the image loaded from the path `v` each time it is drawn.
    pub fn dynamic_load_from(self, v: Option<String>) -> (i: Image)
        ensures
            i == (Image { dynamic_load_from: v, ..self }),
    {
        let mut i = self;
        i.dynamic_load_from = v;
        i
    }

    /// What decides the pixels: the name.  An image that is loaded when it
    /// is drawn declares nothing, so it is drawn every time.
    pub open spec fn render_digest(self, seed: u64) -> Option<u64> {
        if self.dynamic_load_from is Some {
            None
        } else {
            Some(mixed_bytes(seed, vstd::utf8::encode_utf8(self.name@)))
        }
    }

    pub fn render_hash(&self, hasher: &mut ComponentHasher) -> (declared: bool)
        ensures
            declared == self.render_digest(old(hasher).state).is_some(),
            declared ==> self.render_digest(old(hasher).state) == Some(final(hasher).state),
    {
        if self.dynamic_load_from.is_some() {
            false
        } else {
            hasher.write_str(self.name.as_str());
            true
        }
    }

    pub open spec fn instance(self, context: RenderContext) -> InstanceModel {
        InstanceModel {
            pos: context.aabb.pos,
            scale: context.aabb.size,
            name: self.name@,
            radius: self.styled.spec_number(StyleKey::Radius),
            dynamic_load_from: match self.dynamic_load_from {
                Some(p) => Some(p@),
                None => None,
            },
        }
    }

    /// What the image draws: itself, filling its box.
    pub open spec fn rendered(self, context: RenderContext) -> Option<Seq<RenderableModel>> {
        Some(seq![RenderableModel::Image(self.instance(context))])
    }

    pub fn render(&self, context: RenderContext) -> (r: Option<Vec<Renderable>>)
        ensures
            r matches Some(v) && self.rendered(context) == Some(renderable_models(v@)),
    {
        let instance = Instance {
            pos: context.aabb.pos,
            scale: context.aabb.size,
            name: self.name.clone(),
            radius: self.styled.number(StyleKey::Radius),
            dynamic_load_from: match &self.dynamic_load_from {
                Some(p) => Some(p.clone()),
                None => None,
            },
        };
        let mut v: Vec<Renderable> = Vec::new();
        v.push(Renderable::Image(crate::renderables::Image::from_instance_data(instance)));
        assert(renderable_models(v@) =~= self.rendered(context).unwrap());
        Some(v)
    }
}

} // verus!
