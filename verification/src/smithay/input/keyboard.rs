//! Keys.
use vstd::prelude::*;

verus! {

#[derive(Debug, Copy, Clone, PartialEq, Eq, Structural)]
pub enum KeyboardEvent {
    /// The key with this symbol number went down.
    KeyPressed { key: u32 },
    /// The key with this symbol number went up.
    KeyReleased { key: u32 },
}

} // verus!
