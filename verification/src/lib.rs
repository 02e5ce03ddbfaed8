//! Verified core of a live-video compositing pipeline.
//!
//! A camera produces packed luma/chroma frames; the library converts them to
//! RGBA, computes aspect-preserving quad and overlay-window geometry, and
//! models the shared render state: the pause/debounce protocol around a mode
//! toggle and the atomic replacement of the render target's surface and
//! configuration. The GPU, camera and windowing collaborators themselves sit
//! outside the library and are driven through the decisions computed here.

pub mod control;
pub mod convert;
pub mod frame;
pub mod geometry;
pub mod pipeline;
pub mod quad;
pub mod state;
pub mod sync;
pub mod target;
