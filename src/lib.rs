//! A virtual 2D viewport that keeps its aspect ratio inside a resizable window.
//!
//! The library holds the state of a small scene: a camera projection, two
//! letterbox bars that pad the window outside the viewport, and sample
//! objects that bounce left and right. All geometry is exact: sizes and
//! positions are fractions of viewport units, and object positions count
//! sixths of a unit, the distance an object moves in one tick.
pub mod frac;
pub mod viewport;
pub mod letterbox;
pub mod camera;
pub mod motion;
pub mod scene;
