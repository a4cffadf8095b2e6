//! What can go wrong with a camera frame.
use vstd::prelude::*;
use vstd::string::StringExecFns;
use crate::camera::types::FrameFormat;

verus! {

#[derive(Debug)]
pub enum CameraGstError {
    /// A value could not be read as the structure it was meant to be.
    StructureError { structure: String, error: String },
    /// A frame could not be converted.
    ProcessFrameError { src: FrameFormat, destination: String, error: String },
}

/// The mathematical value of a `CameraGstError`.
pub enum CameraGstErrorModel {
    StructureError { structure: Seq<char>, error: Seq<char> },
    ProcessFrameError { src: FrameFormat, destination: Seq<char>, error: Seq<char> },
}

impl View for CameraGstError {
    type V = CameraGstErrorModel;

    open spec fn view(&self) -> CameraGstErrorModel {
        match self {
            CameraGstError::StructureError { structure, error } => CameraGstErrorModel::StructureError {
                structure: structure@,
                error: error@,
            },
            CameraGstError::ProcessFrameError {
                src,
                destination,
                error,
            } => CameraGstErrorModel::ProcessFrameError {
                src: *src,
                destination: destination@,
                error: error@,
            },
        }
    }
}

impl CameraGstErrorModel {
    /// The text of the error.
    pub open spec fn text(self) -> Seq<char> {
        match self {
            CameraGstErrorModel::StructureError { structure, error } => "Could not read "@
                + structure + ": "@ + error,
            CameraGstErrorModel::ProcessFrameError {
                src,
                destination,
                error,
            } => "Could not convert "@ + src.name() + " to "@ + destination + ": "@ + error,
        }
    }
}

impl CameraGstError {
    /// The text of the error.
    pub fn to_string(&self) -> (s: String)
        ensures
            s@ == self@.text(),
    {
        match self {
            CameraGstError::StructureError { structure, error } => String::from_str(
                "Could not read ",
            ).concat(structure.as_str()).concat(": ").concat(error.as_str()),
            CameraGstError::ProcessFrameError { src, destination, error } => String::from_str(
                "Could not convert ",
            ).concat(src.to_string().as_str()).concat(" to ").concat(destination.as_str()).concat(
                ": ",
            ).concat(error.as_str()),
        }
    }
}

} // verus!
