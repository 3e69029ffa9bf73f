//! Navigation-and-draw core for an interactively explorable
//! Mandelbrot-style fractal view.
//!
//! The library holds the three pieces that are easy to get subtly wrong:
//! the view-state model (center, zoom, iteration depth) with its
//! cursor-anchored zoom and zoom-proportional pan transforms, the
//! pointer/wheel interaction state machine, and the render-pipeline
//! lifecycle (lazy one-time initialization, whole-block parameter upload,
//! a single fixed draw call).
//!
//! All quantities are exact integers: zoom levels are hundredths of a
//! logical zoom unit, world coordinates and the world-units-per-pixel
//! scale are Q0.64 fixed point (the value times 2^64), and viewport
//! geometry is whole pixels.  The windowing shell converts at the edge.

pub mod scale;
pub mod view;
pub mod controller;
pub mod pipeline;
pub mod orchestrator;
