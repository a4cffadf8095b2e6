//! A run of text.
use vstd::prelude::*;
use crate::types::{Color, Pos, Scale};

verus! {

#[derive(Clone, Debug)]
pub struct Instance {
    pub pos: Pos,
    pub scale: Scale,
    pub text: String,
    pub color: Color,
    pub font_size: i64,
}

/// The mathematical value of an `Instance`.
pub struct InstanceModel {
    pub pos: Pos,
    pub scale: Scale,
    pub text: Seq<char>,
    pub color: Color,
    pub font_size: i64,
}

impl View for Instance {
    type V = InstanceModel;

    open spec fn view(&self) -> InstanceModel {
        InstanceModel {
            pos: self.pos,
            scale: self.scale,
            text: self.text@,
            color: self.color,
            font_size: self.font_size,
        }
    }
}

#[derive(Clone, Debug)]
pub struct Text {
    pub instance_data: Instance,
}

impl Text {
    pub fn from_instance_data(instance_data: Instance) -> (r: Text)
        ensures
            r.instance_data == instance_data,
    {
        Text { instance_data }
    }
}

} // verus!
