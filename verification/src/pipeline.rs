//! The render-pipeline lifecycle.
//!
//! The pipeline owns one GPU draw's worth of state: a pipeline object,
//! a parameter buffer sized to the uniform block, and its binding set.
//! This module keeps the lifecycle honest — resources are created
//! lazily at most once, the parameter buffer is always written as a
//! whole block, and a draw is a single fixed full-screen-triangle call
//! that never reads the view state directly.  The graphics-API objects
//! themselves live with the windowing shell; it creates them when
//! `ensure_initialized` reports a fresh initialization, copies the
//! uniform block into bytes, and replays the draw command verbatim.

use vstd::prelude::*;
use crate::controller::PixelRect;
use crate::scale::{scale_q64, scale_q64_spec};
use crate::view::ViewState;

verus! {

/// The GPU-facing parameter block, one whole write per frame.  The
/// shell converts the Q0.64 values to the shader's floating-point
/// layout at the edge.
#[derive(Clone, Copy, Debug, PartialEq, Eq, Structural)]
pub struct Uniforms {
    /// Render-target width in pixels.
    pub resolution_w: u32,
    /// Render-target height in pixels.
    pub resolution_h: u32,
    /// World x of the viewport center, Q0.64.
    pub center_x_q64: i128,
    /// World y of the viewport center, Q0.64.
    pub center_y_q64: i128,
    /// World units per pixel, Q0.64.
    pub scale_q64: u64,
    /// Iteration depth for the fragment program.
    pub max_iter: u32,
}

/// The uniform block a view state uploads for a target of `w` by `h`
/// pixels.
pub open spec fn spec_uniforms(v: ViewState, w: u32, h: u32) -> Uniforms {
    Uniforms {
        resolution_w: w,
        resolution_h: h,
        center_x_q64: v.center_x_q64,
        center_y_q64: v.center_y_q64,
        scale_q64: scale_q64_spec(v.zoom_centi as int) as u64,
        max_iter: v.max_iterations,
    }
}

/// Everything one render pass must be told: the draw is always three
/// vertices and one instance of the full-screen triangle, into the
/// given viewport rectangle, loading (never clearing) the target.
#[derive(Clone, Copy, Debug, PartialEq, Eq, Structural)]
pub struct DrawCommand {
    pub viewport: PixelRect,
    pub vertex_count: u32,
    pub instance_count: u32,
    pub loads_target: bool,
}

/// The pipeline's lifecycle state: whether its GPU objects exist, and
/// the last uniform block written to the parameter buffer.
pub struct RenderPipeline {
    pub initialized: bool,
    pub buffer: Option<Uniforms>,
}

impl RenderPipeline {
    /// A pipeline with no GPU objects yet and nothing uploaded.
    pub fn new() -> (p: RenderPipeline)
        ensures
            !p.initialized,
            p.buffer is None,
    {
        RenderPipeline { initialized: false, buffer: None }
    }

    /// Lazy at-most-once resource acquisition: safe to call every
    /// frame; reports whether this call created the resources, so only
    /// the first call does any work.
    pub fn ensure_initialized(&mut self) -> (created: bool)
        ensures
            final(self).initialized,
            created == !old(self).initialized,
            final(self).buffer == old(self).buffer,
    {
        let created = !self.initialized;
        self.initialized = true;
        created
    }

    /// Computes the uniform block for the view and writes it to the
    /// parameter buffer — always the whole block, never a partial
    /// update.
    pub fn upload(&mut self, view: &ViewState, width: u32, height: u32) -> (u: Uniforms)
        requires
            old(self).initialized,
            view.wf(),
        ensures
            u == spec_uniforms(*view, width, height),
            final(self).initialized,
            final(self).buffer == Some(u),
    {
        let s: u64 = scale_q64(view.zoom_centi);
        let u = Uniforms {
            resolution_w: width,
            resolution_h: height,
            center_x_q64: view.center_x_q64,
            center_y_q64: view.center_y_q64,
            scale_q64: s,
            max_iter: view.max_iterations,
        };
        self.buffer = Some(u);
        u
    }

    /// The single draw of a frame.  Requires the resources to exist and
    /// the parameter buffer to have been written; reads no view state.
    pub fn draw(&self, viewport: PixelRect) -> (d: DrawCommand)
        requires
            self.initialized,
            self.buffer is Some,
        ensures
            d.viewport == viewport,
            d.vertex_count == 3,
            d.instance_count == 1,
            d.loads_target,
    {
        DrawCommand { viewport, vertex_count: 3, instance_count: 1, loads_target: true }
    }
}

} // verus!
