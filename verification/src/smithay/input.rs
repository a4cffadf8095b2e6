//! Input as the compositor reports it, in physical pixels.
pub mod keyboard;
pub mod pointer;
pub mod touch;
