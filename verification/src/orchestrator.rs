//! The per-frame glue: apply every pending delta, then render.
//!
//! Each frame, the pending controller and slider messages are applied
//! to the view state in arrival order, and only then is the uniform
//! block computed and uploaded; the draw reads GPU state alone.  The
//! contract of [`frame`] pins that ordering: the uploaded block is the
//! one of the view state after *all* messages, so no frame can observe
//! a partially updated view.

use vstd::prelude::*;
use crate::controller::{message_wf, Message, PixelRect};
use crate::pipeline::{spec_uniforms, DrawCommand, RenderPipeline};
use crate::scale::{ZOOM_MAX_CENTI, ZOOM_MIN_CENTI};
use crate::view::{
    clamped, spec_apply_pan, spec_apply_zoom, ViewState, ITERS_MAX, ITERS_MIN,
};

verus! {

/// The view state a single message leaves behind.
pub open spec fn spec_apply_message(v: ViewState, m: Message) -> ViewState {
    match m {
        Message::UpdateMaxIterations(n) => ViewState {
            center_x_q64: v.center_x_q64,
            center_y_q64: v.center_y_q64,
            zoom_centi: v.zoom_centi,
            max_iterations: clamped(n as int, ITERS_MIN as int, ITERS_MAX as int) as u32,
        },
        Message::UpdateZoom(z) => ViewState {
            center_x_q64: v.center_x_q64,
            center_y_q64: v.center_y_q64,
            zoom_centi: clamped(z as int, ZOOM_MIN_CENTI as int, ZOOM_MAX_CENTI as int) as i64,
            max_iterations: v.max_iterations,
        },
        Message::PanningDelta(d) => spec_apply_pan(v, d.x as int, d.y as int),
        Message::ZoomDelta { anchor, viewport_w, viewport_h, wheel_centilines } => spec_apply_zoom(
            v,
            anchor.x as int,
            anchor.y as int,
            viewport_w as int,
            viewport_h as int,
            wheel_centilines as int,
        ),
    }
}

/// The view state a whole message sequence leaves behind, first
/// message first.
pub open spec fn spec_apply_all(v: ViewState, ms: Seq<Message>) -> ViewState
    decreases ms.len(),
{
    if ms.len() == 0 {
        v
    } else {
        spec_apply_all(spec_apply_message(v, ms[0]), ms.drop_first())
    }
}

/// Appending a message applies it after the rest.
pub proof fn lemma_apply_all_snoc(v: ViewState, ms: Seq<Message>, m: Message)
    ensures
        spec_apply_all(v, ms.push(m)) == spec_apply_message(spec_apply_all(v, ms), m),
    decreases ms.len(),
{
    if ms.len() == 0 {
        assert(ms.push(m)[0] == m);
        assert(ms.push(m).drop_first() =~= Seq::<Message>::empty());
        assert(spec_apply_all(spec_apply_message(v, m), Seq::<Message>::empty())
            == spec_apply_message(v, m));
        assert(spec_apply_all(v, ms) == v);
    } else {
        assert(ms.push(m)[0] == ms[0]);
        assert(ms.push(m).drop_first() =~= ms.drop_first().push(m));
        lemma_apply_all_snoc(spec_apply_message(v, ms[0]), ms.drop_first(), m);
        assert(spec_apply_all(v, ms.push(m)) == spec_apply_all(
            spec_apply_message(v, ms[0]),
            ms.drop_first().push(m),
        ));
        assert(spec_apply_all(v, ms) == spec_apply_all(
            spec_apply_message(v, ms[0]),
            ms.drop_first(),
        ));
    }
}

/// Applies one message to the view.
pub fn apply_message(view: &mut ViewState, m: &Message)
    requires
        old(view).wf(),
        message_wf(*m),
    ensures
        *final(view) == spec_apply_message(*old(view), *m),
        final(view).wf(),
{
    match m {
        Message::UpdateMaxIterations(n) => view.set_max_iterations(*n),
        Message::UpdateZoom(z) => view.set_zoom(*z),
        Message::PanningDelta(d) => view.apply_pan(d.x, d.y),
        Message::ZoomDelta { anchor, viewport_w, viewport_h, wheel_centilines } => view.apply_zoom(
            anchor.x,
            anchor.y,
            *viewport_w,
            *viewport_h,
            *wheel_centilines,
        ),
    }
}

/// Applies the pending messages in arrival order.
pub fn apply_messages(view: &mut ViewState, msgs: &Vec<Message>)
    requires
        old(view).wf(),
        forall|i: int| 0 <= i < msgs@.len() ==> message_wf(msgs@[i]),
    ensures
        *final(view) == spec_apply_all(*old(view), msgs@),
        final(view).wf(),
{
    let ghost v0 = *view;
    let mut idx: usize = 0;
    while idx < msgs.len()
        invariant
            idx <= msgs@.len(),
            view.wf(),
            *view == spec_apply_all(v0, msgs@.take(idx as int)),
            forall|i: int| 0 <= i < msgs@.len() ==> message_wf(msgs@[i]),
        decreases msgs@.len() - idx,
    {
        proof {
            assert(msgs@.take(idx as int).push(msgs@[idx as int]) =~= msgs@.take(idx as int + 1));
            lemma_apply_all_snoc(v0, msgs@.take(idx as int), msgs@[idx as int]);
        }
        apply_message(view, &msgs[idx]);
        idx = idx + 1;
    }
    proof {
        assert(msgs@.take(msgs@.len() as int) =~= msgs@);
    }
}

/// One frame: apply every pending delta, make sure the GPU resources
/// exist, upload the uniform block of the *settled* view, then draw.
pub fn frame(
    view: &mut ViewState,
    pipeline: &mut RenderPipeline,
    msgs: &Vec<Message>,
    target_w: u32,
    target_h: u32,
    viewport: PixelRect,
) -> (d: DrawCommand)
    requires
        old(view).wf(),
        forall|i: int| 0 <= i < msgs@.len() ==> message_wf(msgs@[i]),
    ensures
        *final(view) == spec_apply_all(*old(view), msgs@),
        final(view).wf(),
        final(pipeline).initialized,
        final(pipeline).buffer == Some(spec_uniforms(*final(view), target_w, target_h)),
        d.viewport == viewport,
        d.vertex_count == 3,
        d.instance_count == 1,
        d.loads_target,
{
    apply_messages(view, msgs);
    let _created: bool = pipeline.ensure_initialized();
    let _uploaded = pipeline.upload(view, target_w, target_h);
    pipeline.draw(viewport)
}

} // verus!
