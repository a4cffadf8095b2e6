//! A retained-mode user-interface toolkit core: node trees, a box layout
//! engine, hit testing, event routing and render caching, all on integers.
pub mod animations;
pub mod arrange;
pub mod camera;
pub mod component;
pub mod context;
pub mod dispatch;
pub mod event;
pub mod gesture;
pub mod gesture_laws;
pub mod hit;
pub mod input;
pub mod layout;
pub mod measure;
pub mod node;
pub mod reconcile;
pub mod render;
pub mod renderables;
pub mod smithay;
pub mod style;
pub mod types;
pub mod ui;
pub mod widgets;
