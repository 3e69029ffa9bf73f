//! The view state: what the current frame renders.
//!
//! World coordinates are Q0.64 fixed point: an `i128` holds the real
//! coordinate times 2^64, so one pixel's world span (the Q0.64 scale of
//! [`crate::scale`]) adds exactly, with no rounding anywhere in the pan
//! and zoom transforms.  Pixel positions and viewport sizes are whole
//! pixels; anchor offsets from the viewport center are counted in
//! half-pixels (`2 * anchor - size`) so that an odd-sized viewport still
//! has an exact center.
//!
//! Out-of-range navigation input is sanitized, never rejected: the zoom
//! level and the iteration depth are clamped to their bounds, and the
//! center is clamped to a generous world box far outside the region the
//! fractal occupies.

use vstd::prelude::*;
use vstd::arithmetic::div_mod::lemma_div_pos_is_pos;
use crate::scale::{
    scale_q64, scale_q64_spec, SCALE_MAX_Q64, ZOOM_DEFAULT_CENTI, ZOOM_MAX_CENTI, ZOOM_MIN_CENTI,
};

verus! {

/// Fewest iterations the renderer may be asked for.
pub const ITERS_MIN: u32 = 20;

/// Most iterations the renderer may be asked for.
pub const ITERS_MAX: u32 = 200;

/// Iteration depth at startup.
pub const ITERS_DEFAULT: u32 = 20;

/// Startup world-space center, x coordinate: -1.5 in Q0.64.
pub const CENTER_DEFAULT_X_Q64: i128 = -27670116110564327424;

/// Startup world-space center, y coordinate.
pub const CENTER_DEFAULT_Y_Q64: i128 = 0;

/// The center is kept inside [-2^36, 2^36] world units (2^100 in Q0.64),
/// a box vastly larger than the fractal yet far from `i128` overflow.
pub const CENTER_LIMIT_Q64: i128 = 1267650600228229401496703205376;

/// Largest pixel coordinate or viewport extent the transforms accept
/// (2^32): far beyond any real target, close enough to keep every
/// intermediate product inside `i128`.
pub const COORD_LIMIT_PX: i64 = 4294967296;

/// Hundredths of a wheel line per hundredth of a zoom unit: one wheel
/// line changes the zoom level by 0.2 units.
pub const WHEEL_CENTILINES_PER_CENTIZOOM: i64 = 5;

/// `v` forced into `[lo, hi]`.
pub open spec fn clamped(v: int, lo: int, hi: int) -> int {
    if v < lo {
        lo
    } else if v > hi {
        hi
    } else {
        v
    }
}

/// Zoom-level change, in hundredths of a unit, for a wheel motion given
/// in hundredths of a line; rounds the odd hundredth toward zero.
pub open spec fn wheel_zoom_delta_spec(w: int) -> int {
    if w >= 0 {
        w / WHEEL_CENTILINES_PER_CENTIZOOM as int
    } else {
        -((-w) / WHEEL_CENTILINES_PER_CENTIZOOM as int)
    }
}

/// The navigation parameters of the rendered view.
#[derive(Clone, Copy, Debug, PartialEq, Eq, Structural)]
pub struct ViewState {
    /// World x coordinate mapped to the viewport center, Q0.64.
    pub center_x_q64: i128,
    /// World y coordinate mapped to the viewport center, Q0.64.
    pub center_y_q64: i128,
    /// Zoom level in hundredths of a unit, within the zoom bounds.
    pub zoom_centi: i64,
    /// Iteration depth for the fragment program, within its bounds.
    pub max_iterations: u32,
}

/// Where a pan by `d` pixels at scale `s` puts a center coordinate.
pub open spec fn pan_center_spec(c: int, d: int, s: int) -> int {
    clamped(c - 2 * d * s, -CENTER_LIMIT_Q64 as int, CENTER_LIMIT_Q64 as int)
}

/// The view after a pan of `(dx, dy)` pixels: the center moves against
/// the pointer motion, two world half-extents per pixel of motion (the
/// fixed calibration factor of the projection), at the current scale.
pub open spec fn spec_apply_pan(v: ViewState, dx: int, dy: int) -> ViewState {
    ViewState {
        center_x_q64: pan_center_spec(
            v.center_x_q64 as int,
            dx,
            scale_q64_spec(v.zoom_centi as int),
        ) as i128,
        center_y_q64: pan_center_spec(
            v.center_y_q64 as int,
            dy,
            scale_q64_spec(v.zoom_centi as int),
        ) as i128,
        zoom_centi: v.zoom_centi,
        max_iterations: v.max_iterations,
    }
}

/// The view after a wheel zoom of `w` hundredths of a line anchored at
/// pixel `(ax, ay)` of a `vw` by `vh` viewport: the zoom level moves by
/// the scaled wheel delta and is clamped, and the center shifts by the
/// anchor's half-pixel offset from the viewport center times the change
/// in scale, which holds the world point under the cursor visually
/// fixed.  At a zoom bound the scale does not change and the center
/// stays put.
pub open spec fn spec_apply_zoom(
    v: ViewState,
    ax: int,
    ay: int,
    vw: int,
    vh: int,
    w: int,
) -> ViewState {
    let zoom2 = clamped(
        v.zoom_centi + wheel_zoom_delta_spec(w),
        ZOOM_MIN_CENTI as int,
        ZOOM_MAX_CENTI as int,
    );
    let ds = scale_q64_spec(v.zoom_centi as int) - scale_q64_spec(zoom2);
    ViewState {
        center_x_q64: clamped(
            v.center_x_q64 + (2 * ax - vw) * ds,
            -CENTER_LIMIT_Q64 as int,
            CENTER_LIMIT_Q64 as int,
        ) as i128,
        center_y_q64: clamped(
            v.center_y_q64 + (2 * ay - vh) * ds,
            -CENTER_LIMIT_Q64 as int,
            CENTER_LIMIT_Q64 as int,
        ) as i128,
        zoom_centi: zoom2 as i64,
        max_iterations: v.max_iterations,
    }
}

/// Product bound used to discharge the fixed-point overflow checks.
proof fn lemma_abs_mul(a: int, amax: int, b: int, bmax: int)
    by (nonlinear_arith)
    requires
        -amax <= a <= amax,
        -bmax <= b <= bmax,
        0 <= amax,
        0 <= bmax,
    ensures
        -(amax * bmax) <= a * b <= amax * bmax,
{
}

impl ViewState {
    /// All fields within their documented bounds.
    pub open spec fn wf(self) -> bool {
        &&& ZOOM_MIN_CENTI <= self.zoom_centi <= ZOOM_MAX_CENTI
        &&& ITERS_MIN <= self.max_iterations <= ITERS_MAX
        &&& -CENTER_LIMIT_Q64 <= self.center_x_q64 <= CENTER_LIMIT_Q64
        &&& -CENTER_LIMIT_Q64 <= self.center_y_q64 <= CENTER_LIMIT_Q64
    }

    /// The startup view: zoom 2.0, center (-1.5, 0), 20 iterations.
    pub open spec fn default_spec() -> ViewState {
        ViewState {
            center_x_q64: CENTER_DEFAULT_X_Q64,
            center_y_q64: CENTER_DEFAULT_Y_Q64,
            zoom_centi: ZOOM_DEFAULT_CENTI,
            max_iterations: ITERS_DEFAULT,
        }
    }

    /// Creates the startup view.
    pub fn new() -> (v: ViewState)
        ensures
            v == ViewState::default_spec(),
            v.wf(),
    {
        ViewState {
            center_x_q64: CENTER_DEFAULT_X_Q64,
            center_y_q64: CENTER_DEFAULT_Y_Q64,
            zoom_centi: ZOOM_DEFAULT_CENTI,
            max_iterations: ITERS_DEFAULT,
        }
    }

    /// World units per pixel at the current zoom level, Q0.64.
    pub fn scale(&self) -> (s: u64)
        requires
            self.wf(),
        ensures
            s == scale_q64_spec(self.zoom_centi as int),
            0 < s <= SCALE_MAX_Q64,
    {
        scale_q64(self.zoom_centi)
    }

    /// Pans the view by a pointer motion of `(dx, dy)` pixels.
    pub fn apply_pan(&mut self, dx: i64, dy: i64)
        requires
            old(self).wf(),
        ensures
            *final(self) == spec_apply_pan(*old(self), dx as int, dy as int),
            final(self).wf(),
    {
        let s: u64 = scale_q64(self.zoom_centi);
        proof {
            lemma_abs_mul(dx as int, 0x8000_0000_0000_0000, s as int, SCALE_MAX_Q64 as int);
            lemma_abs_mul(dy as int, 0x8000_0000_0000_0000, s as int, SCALE_MAX_Q64 as int);
            assert(2 * ((dx as int) * (s as int)) == 2 * (dx as int) * (s as int))
                by (nonlinear_arith);
            assert(2 * ((dy as int) * (s as int)) == 2 * (dy as int) * (s as int))
                by (nonlinear_arith);
        }
        let step_x: i128 = 2 * ((dx as i128) * (s as i128));
        let step_y: i128 = 2 * ((dy as i128) * (s as i128));
        self.center_x_q64 = clamp_center(self.center_x_q64 - step_x);
        self.center_y_q64 = clamp_center(self.center_y_q64 - step_y);
    }

    /// Applies a wheel zoom of `w` hundredths of a line anchored at
    /// pixel `(anchor_x, anchor_y)` of a `viewport_w` by `viewport_h`
    /// viewport.
    pub fn apply_zoom(
        &mut self,
        anchor_x: i64,
        anchor_y: i64,
        viewport_w: i64,
        viewport_h: i64,
        wheel_centilines: i64,
    )
        requires
            old(self).wf(),
            0 <= anchor_x <= viewport_w <= COORD_LIMIT_PX,
            0 <= anchor_y <= viewport_h <= COORD_LIMIT_PX,
        ensures
            *final(self) == spec_apply_zoom(
                *old(self),
                anchor_x as int,
                anchor_y as int,
                viewport_w as int,
                viewport_h as int,
                wheel_centilines as int,
            ),
            final(self).wf(),
    {
        let dz: i64 = wheel_zoom_delta(wheel_centilines);
        let prev_s: u64 = scale_q64(self.zoom_centi);
        let sum: i64 = self.zoom_centi + dz;
        let new_zoom: i64 = if sum < ZOOM_MIN_CENTI {
            ZOOM_MIN_CENTI
        } else if sum > ZOOM_MAX_CENTI {
            ZOOM_MAX_CENTI
        } else {
            sum
        };
        self.zoom_centi = new_zoom;
        let new_s: u64 = scale_q64(new_zoom);
        let off_x: i128 = 2 * (anchor_x as i128) - (viewport_w as i128);
        let off_y: i128 = 2 * (anchor_y as i128) - (viewport_h as i128);
        let ds: i128 = (prev_s as i128) - (new_s as i128);
        proof {
            lemma_abs_mul(off_x as int, 2 * COORD_LIMIT_PX as int, ds as int, SCALE_MAX_Q64 as int);
            lemma_abs_mul(off_y as int, 2 * COORD_LIMIT_PX as int, ds as int, SCALE_MAX_Q64 as int);
        }
        self.center_x_q64 = clamp_center(self.center_x_q64 + off_x * ds);
        self.center_y_q64 = clamp_center(self.center_y_q64 + off_y * ds);
    }

    /// Sets the zoom level from a slider value in hundredths of a unit,
    /// clamping it to the zoom bounds.
    pub fn set_zoom(&mut self, zoom_centi: i64)
        requires
            old(self).wf(),
        ensures
            final(self).zoom_centi
                == clamped(zoom_centi as int, ZOOM_MIN_CENTI as int, ZOOM_MAX_CENTI as int),
            final(self).center_x_q64 == old(self).center_x_q64,
            final(self).center_y_q64 == old(self).center_y_q64,
            final(self).max_iterations == old(self).max_iterations,
            final(self).wf(),
    {
        self.zoom_centi = if zoom_centi < ZOOM_MIN_CENTI {
            ZOOM_MIN_CENTI
        } else if zoom_centi > ZOOM_MAX_CENTI {
            ZOOM_MAX_CENTI
        } else {
            zoom_centi
        };
    }

    /// Sets the iteration depth, clamping it to its bounds.
    pub fn set_max_iterations(&mut self, n: u32)
        requires
            old(self).wf(),
        ensures
            final(self).max_iterations
                == clamped(n as int, ITERS_MIN as int, ITERS_MAX as int),
            final(self).center_x_q64 == old(self).center_x_q64,
            final(self).center_y_q64 == old(self).center_y_q64,
            final(self).zoom_centi == old(self).zoom_centi,
            final(self).wf(),
    {
        self.max_iterations = if n < ITERS_MIN {
            ITERS_MIN
        } else if n > ITERS_MAX {
            ITERS_MAX
        } else {
            n
        };
    }
}

impl Default for ViewState {
    /// The startup view.
    fn default() -> (v: Self)
        ensures
            v == ViewState::default_spec(),
            v.wf(),
    {
        ViewState::new()
    }
}

/// Forces a Q0.64 center coordinate into the world box.
fn clamp_center(v: i128) -> (r: i128)
    ensures
        r == clamped(v as int, -CENTER_LIMIT_Q64 as int, CENTER_LIMIT_Q64 as int),
{
    if v < -CENTER_LIMIT_Q64 {
        -CENTER_LIMIT_Q64
    } else if v > CENTER_LIMIT_Q64 {
        CENTER_LIMIT_Q64
    } else {
        v
    }
}

/// Converts wheel motion in hundredths of a line to a zoom-level change
/// in hundredths of a unit.
fn wheel_zoom_delta(w: i64) -> (dz: i64)
    ensures
        dz == wheel_zoom_delta_spec(w as int),
{
    if w >= 0 {
        ((w as u64) / (WHEEL_CENTILINES_PER_CENTIZOOM as u64)) as i64
    } else {
        let m: u64 = (-(w as i128)) as u64;
        let d: u64 = m / (WHEEL_CENTILINES_PER_CENTIZOOM as u64);
        -(d as i64)
    }
}

/// Zooming anchored at the exact viewport center never pans: the
/// anchor's half-pixel offset is zero, so the center term vanishes for
/// every wheel delta.
pub proof fn lemma_zoom_at_center_keeps_center(
    v: ViewState,
    ax: int,
    ay: int,
    vw: int,
    vh: int,
    w: int,
)
    requires
        v.wf(),
        2 * ax == vw,
        2 * ay == vh,
    ensures
        spec_apply_zoom(v, ax, ay, vw, vh, w).center_x_q64 == v.center_x_q64,
        spec_apply_zoom(v, ax, ay, vw, vh, w).center_y_q64 == v.center_y_q64,
{
    let zoom2 = clamped(
        v.zoom_centi + wheel_zoom_delta_spec(w),
        ZOOM_MIN_CENTI as int,
        ZOOM_MAX_CENTI as int,
    );
    let ds = scale_q64_spec(v.zoom_centi as int) - scale_q64_spec(zoom2);
    assert((2 * ax - vw) * ds == 0);
    assert((2 * ay - vh) * ds == 0);
}

/// A zoom-increasing wheel delta at the top zoom level changes nothing:
/// the clamp keeps the zoom level, so the scale change is zero and the
/// center keeps its place.
pub proof fn lemma_zoom_at_max_is_identity(
    v: ViewState,
    ax: int,
    ay: int,
    vw: int,
    vh: int,
    w: int,
)
    requires
        v.wf(),
        v.zoom_centi == ZOOM_MAX_CENTI,
        w >= 0,
    ensures
        spec_apply_zoom(v, ax, ay, vw, vh, w) == v,
{
    lemma_div_pos_is_pos(w, WHEEL_CENTILINES_PER_CENTIZOOM as int);
    let zoom2 = clamped(
        v.zoom_centi + wheel_zoom_delta_spec(w),
        ZOOM_MIN_CENTI as int,
        ZOOM_MAX_CENTI as int,
    );
    assert(zoom2 == ZOOM_MAX_CENTI as int);
    let ds = scale_q64_spec(v.zoom_centi as int) - scale_q64_spec(zoom2);
    assert(ds == 0);
    assert((2 * ax - vw) * ds == 0);
    assert((2 * ay - vh) * ds == 0);
}

/// Pans compose additively while the zoom does not change in between:
/// two pans land the center exactly where the single summed pan does,
/// provided the first pan does not run into the world-box clamp.
pub proof fn lemma_pan_additive(v: ViewState, dx1: int, dy1: int, dx2: int, dy2: int)
    requires
        v.wf(),
        -CENTER_LIMIT_Q64
            <= v.center_x_q64 - 2 * dx1 * scale_q64_spec(v.zoom_centi as int)
            <= CENTER_LIMIT_Q64,
        -CENTER_LIMIT_Q64
            <= v.center_y_q64 - 2 * dy1 * scale_q64_spec(v.zoom_centi as int)
            <= CENTER_LIMIT_Q64,
    ensures
        spec_apply_pan(spec_apply_pan(v, dx1, dy1), dx2, dy2)
            == spec_apply_pan(v, dx1 + dx2, dy1 + dy2),
{
    let s = scale_q64_spec(v.zoom_centi as int);
    assert(2 * (dx1 + dx2) * s == 2 * dx1 * s + 2 * dx2 * s) by (nonlinear_arith);
    assert(2 * (dy1 + dy2) * s == 2 * dy1 * s + 2 * dy2 * s) by (nonlinear_arith);
}

} // verus!
