//! A registered or dynamically loaded bitmap.
use vstd::prelude::*;
use crate::types::{Pos, Scale};

verus! {

#[derive(Clone, Debug)]
pub struct Instance {
    pub pos: Pos,
    pub scale: Scale,
    pub name: String,
    pub radius: i64,
    /// A path to load the bitmap from when it is drawn, instead of a registered asset.
    pub dynamic_load_from: Option<String>,
}

/// The mathematical value of an `Instance`.
pub struct InstanceModel {
    pub pos: Pos,
    pub scale: Scale,
    pub name: Seq<char>,
    pub radius: i64,
    pub dynamic_load_from: Option<Seq<char>>,
}

impl View for Instance {
    type V = InstanceModel;

    open spec fn view(&self) -> InstanceModel {
        InstanceModel {
            pos: self.pos,
            scale: self.scale,
            name: self.name@,
            radius: self.radius,
            dynamic_load_from: match self.dynamic_load_from {
                Some(p) => Some(p@),
                None => None,
            },
        }
    }
}

#[derive(Clone, Debug)]
pub struct Image {
    pub instance_data: Instance,
}

impl Image {
    pub fn from_instance_data(instance_data: Instance) -> (r: Image)
        ensures
            r.instance_data == instance_data,
    {
        Image { instance_data }
    }
}

} // verus!
