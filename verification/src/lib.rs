//! Core of an interactive wireframe-sphere viewer.
//!
//! The library holds everything the viewer decides or computes: the
//! procedural tessellation of a sphere into a vertex/index mesh drawn as a
//! line list, the accumulation of a free-form orientation from mouse-drag
//! deltas, the viewport-dependent inputs of the perspective projection, and
//! the per-frame event dispatch of the render loop. The rendering backend
//! (window, GPU buffers, event source) lives outside the library and
//! exchanges plain values with it.

pub mod mesh;
pub mod orientation;
pub mod render;
pub mod view;
