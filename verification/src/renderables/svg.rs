//! A registered or dynamically loaded vector image.
use vstd::prelude::*;
use crate::types::{Pos, Scale};

verus! {

#[derive(Clone, Debug)]
pub struct Instance {
    pub pos: Pos,
    pub scale: Scale,
    pub name: String,
    /// A path to load the image from when it is drawn, instead of a registered asset.
    pub dynamic_load_from: Option<String>,
}

/// The mathematical value of an `Instance`.
pub struct InstanceModel {
    pub pos: Pos,
    pub scale: Scale,
    pub name: Seq<char>,
    pub dynamic_load_from: Option<Seq<char>>,
}

impl View for Instance {
    type V = InstanceModel;

    open spec fn view(&self) -> InstanceModel {
        InstanceModel {
            pos: self.pos,
            scale: self.scale,
            name: self.name@,
            dynamic_load_from: match self.dynamic_load_from {
                Some(p) => Some(p@),
                None => None,
            },
        }
    }
}

#[derive(Clone, Debug)]
pub struct Svg {
    pub instance_data: Instance,
}

impl Svg {
    pub fn from_instance_data(instance_data: Instance) -> (r: Svg)
        ensures
            r.instance_data == instance_data,
    {
        Svg { instance_data }
    }
}

} // verus!
