//! A verified model of a GPU-backed doodling canvas.
//!
//! The library holds the logic of an offscreen-canvas compositing pipeline:
//! converting pixel rectangles into normalized-device-coordinate quads,
//! accumulating paint operations on a persistent canvas buffer, configuring
//! the presentable surface, and exporting the canvas as a row-stride-padded
//! readback that is cropped to a tight RGBA pixel buffer and encoded for
//! hand-off. The GPU device, the window and the event loop are external
//! collaborators: they call into these functions and perform the actions
//! they decide.

pub mod canvas;
pub mod capture;
pub mod doodle;
pub mod exporter;
pub mod geometry;
pub mod render_state;
pub mod surface;
pub mod winit_app;
