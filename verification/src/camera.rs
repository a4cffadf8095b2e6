//! Camera frames: their formats and their conversion to RGB.
pub mod error;
pub mod types;
