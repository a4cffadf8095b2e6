//! Touch points.
use vstd::prelude::*;

verus! {

#[derive(Debug, Copy, Clone, PartialEq, Eq, Structural)]
pub struct Position {
    pub x: i64,
    pub y: i64,
}

/// A finger on the surface.
#[derive(Debug, Copy, Clone, PartialEq, Eq, Structural)]
pub struct TouchPoint {
    pub position: Position,
}

#[derive(Debug, Copy, Clone, PartialEq, Eq, Structural)]
pub enum TouchEvent {
    Up { id: i32, time: u32, position: Position, scale_factor: i64 },
    Down { id: i32, time: u32, position: Position, scale_factor: i64 },
    Motion { id: i32, time: u32, position: Position, scale_factor: i64 },
    Cancel { id: i32, position: Position, scale_factor: i64 },
}

} // verus!
