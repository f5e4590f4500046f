//! A small drawing/windowing demo library: derived vector-shape geometry and a
//! keyboard-driven two-state view toggle, stated and proved over plain values.
//! A host program interprets the resulting draw commands and widget lists
//! against an actual GUI toolkit.

pub mod geom;
pub mod render;
pub mod toggle;
pub mod view;
