//! A layer-shell surface.
pub mod layer_surface;
pub mod layer_window;
