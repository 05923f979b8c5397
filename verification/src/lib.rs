//! A minimal page-viewer core: the state machine that tracks the current page
//! of an opened document, validates rasterized page buffers, and keeps the
//! GPU-side texture and binding resources consistent across page changes.
//!
//! Windowing, document decoding and GPU device setup are external
//! collaborators; this crate holds the logic that decides what they are asked
//! to do and proves that the viewer state never goes out of bounds and never
//! keeps a binding that does not match the live texture.

pub mod error;
pub mod frame;
pub mod geometry;
pub mod gpu;
pub mod input;
pub mod pixels;
pub mod viewer;
