//! The pointer/wheel interaction state machine.
//!
//! Raw input events become view-state deltas: a wheel motion over the
//! viewport becomes a zoom delta anchored at the cursor, and a primary-
//! button drag becomes a stream of pan deltas.  The machine has two
//! states, `Idle` and `Panning(anchor)`, and a total transition table:
//! every (state, event) pair produces a defined next state and an
//! explicit captured/ignored classification, so no malformed event
//! sequence (for instance a release without a press) can leave it in an
//! inconsistent state.
//!
//! Wheel handling comes first and is independent of the pan state: a
//! wheel event over the viewport produces a zoom delta even in the
//! middle of a drag, and leaves the drag untouched.

use vstd::prelude::*;
use crate::view::COORD_LIMIT_PX;

verus! {

/// A position in whole pixels, in window coordinates unless said
/// otherwise.
#[derive(Clone, Copy, Debug, PartialEq, Eq, Structural)]
pub struct PixelPoint {
    pub x: i64,
    pub y: i64,
}

/// A pixel-aligned rectangle: origin and extent in window coordinates.
#[derive(Clone, Copy, Debug, PartialEq, Eq, Structural)]
pub struct PixelRect {
    pub x: i64,
    pub y: i64,
    pub width: i64,
    pub height: i64,
}

/// A mouse button; only the primary (left) button drives panning.
#[derive(Clone, Copy, Debug, PartialEq, Eq, Structural)]
pub enum MouseButton {
    Left,
    Right,
    Middle,
    Other,
}

/// Whether the pointer position is known, and where it is.
#[derive(Clone, Copy, Debug, PartialEq, Eq, Structural)]
pub enum CursorState {
    Available(PixelPoint),
    Unavailable,
}

/// One raw input event, as the windowing shell reports it.  Wheel
/// motion is in hundredths of a line; a pixel-based wheel reports its
/// vertical amount the same way.  Events of no interest to navigation
/// (keys, touch, window chrome) arrive as `Other`.
#[derive(Clone, Copy, Debug, PartialEq, Eq, Structural)]
pub enum PointerEvent {
    WheelScrolled { y_centilines: i64 },
    ButtonPressed(MouseButton),
    ButtonReleased(MouseButton),
    CursorMoved(PixelPoint),
    Other,
}

/// Whether the controller consumed the event or lets it propagate.
#[derive(Clone, Copy, Debug, PartialEq, Eq, Structural)]
pub enum EventStatus {
    Captured,
    Ignored,
}

/// The controller state: idle, or panning with the last known pointer
/// position as the gesture anchor.
#[derive(Clone, Copy, Debug, PartialEq, Eq, Structural)]
pub enum MouseInteraction {
    Idle,
    Panning(PixelPoint),
}

impl Default for MouseInteraction {
    /// A fresh controller is idle.
    fn default() -> (s: Self)
        ensures
            s == MouseInteraction::Idle,
    {
        MouseInteraction::Idle
    }
}

/// A view-state delta produced by the controller or by the UI controls.
#[derive(Clone, Copy, Debug, PartialEq, Eq, Structural)]
pub enum Message {
    /// Slider: new iteration depth (clamped by the view).
    UpdateMaxIterations(u32),
    /// Slider: new zoom level in hundredths of a unit (clamped).
    UpdateZoom(i64),
    /// Drag: pointer motion in pixels since the previous position.
    PanningDelta(PixelPoint),
    /// Wheel: zoom by `wheel_centilines` hundredths of a line, anchored
    /// at `anchor` (viewport-relative pixels) in a viewport of the given
    /// extent.
    ZoomDelta {
        anchor: PixelPoint,
        viewport_w: i64,
        viewport_h: i64,
        wheel_centilines: i64,
    },
}

/// Coordinates small enough for every difference taken here to stay
/// far inside `i64`.
pub open spec fn point_wf(p: PixelPoint) -> bool {
    &&& -COORD_LIMIT_PX <= p.x <= COORD_LIMIT_PX
    &&& -COORD_LIMIT_PX <= p.y <= COORD_LIMIT_PX
}

/// A viewport with bounded origin and nonnegative bounded extent.
pub open spec fn rect_wf(r: PixelRect) -> bool {
    &&& -COORD_LIMIT_PX <= r.x <= COORD_LIMIT_PX
    &&& -COORD_LIMIT_PX <= r.y <= COORD_LIMIT_PX
    &&& 0 <= r.width <= COORD_LIMIT_PX
    &&& 0 <= r.height <= COORD_LIMIT_PX
}

pub open spec fn cursor_wf(c: CursorState) -> bool {
    match c {
        CursorState::Available(p) => point_wf(p),
        CursorState::Unavailable => true,
    }
}

pub open spec fn event_wf(e: PointerEvent) -> bool {
    match e {
        PointerEvent::CursorMoved(p) => point_wf(p),
        _ => true,
    }
}

/// A panning anchor always lies within coordinate bounds.
pub open spec fn interaction_wf(s: MouseInteraction) -> bool {
    match s {
        MouseInteraction::Panning(p) => point_wf(p),
        MouseInteraction::Idle => true,
    }
}

/// Deltas safe to hand to the view: a zoom anchor lies inside its
/// viewport and the viewport is of bounded extent.
pub open spec fn message_wf(m: Message) -> bool {
    match m {
        Message::ZoomDelta { anchor, viewport_w, viewport_h, wheel_centilines } => {
            &&& 0 <= anchor.x <= viewport_w <= COORD_LIMIT_PX
            &&& 0 <= anchor.y <= viewport_h <= COORD_LIMIT_PX
        },
        _ => true,
    }
}

pub open spec fn point_in_rect(p: PixelPoint, r: PixelRect) -> bool {
    &&& r.x <= p.x < r.x + r.width
    &&& r.y <= p.y < r.y + r.height
}

/// The cursor position in window coordinates, if it is over `r`.
pub open spec fn cursor_position_over(c: CursorState, r: PixelRect) -> Option<PixelPoint> {
    match c {
        CursorState::Available(p) => if point_in_rect(p, r) {
            Some(p)
        } else {
            None
        },
        CursorState::Unavailable => None,
    }
}

/// The cursor position relative to `r`'s origin, if it is over `r`.
pub open spec fn cursor_position_in(c: CursorState, r: PixelRect) -> Option<PixelPoint> {
    match cursor_position_over(c, r) {
        Some(p) => Some(PixelPoint { x: (p.x - r.x) as i64, y: (p.y - r.y) as i64 }),
        None => None,
    }
}

/// The pan half of the transition table: every row but the wheel row.
pub open spec fn spec_pan_step(
    s: MouseInteraction,
    e: PointerEvent,
    bounds: PixelRect,
    cursor: CursorState,
) -> (MouseInteraction, EventStatus, Option<Message>) {
    match s {
        MouseInteraction::Idle => match e {
            PointerEvent::ButtonPressed(MouseButton::Left) => {
                match cursor_position_over(cursor, bounds) {
                    Some(p) => (MouseInteraction::Panning(p), EventStatus::Captured, None),
                    None => (MouseInteraction::Idle, EventStatus::Ignored, None),
                }
            },
            _ => (MouseInteraction::Idle, EventStatus::Ignored, None),
        },
        MouseInteraction::Panning(prev) => match e {
            PointerEvent::ButtonReleased(MouseButton::Left) => {
                (MouseInteraction::Idle, EventStatus::Ignored, None)
            },
            PointerEvent::CursorMoved(pos) => {
                (
                    MouseInteraction::Panning(pos),
                    EventStatus::Captured,
                    Some(
                        Message::PanningDelta(
                            PixelPoint { x: (pos.x - prev.x) as i64, y: (pos.y - prev.y) as i64 },
                        ),
                    ),
                )
            },
            _ => (MouseInteraction::Panning(prev), EventStatus::Ignored, None),
        },
    }
}

/// The whole transition table of the controller.  A wheel motion with
/// the cursor over the viewport is checked first, emits a zoom delta
/// anchored at the cursor, and leaves the pan state as it was; every
/// other event goes through the pan half of the table.
pub open spec fn spec_update(
    s: MouseInteraction,
    e: PointerEvent,
    bounds: PixelRect,
    cursor: CursorState,
) -> (MouseInteraction, EventStatus, Option<Message>) {
    match e {
        PointerEvent::WheelScrolled { y_centilines } => {
            match cursor_position_in(cursor, bounds) {
                Some(anchor) => (
                    s,
                    EventStatus::Captured,
                    Some(
                        Message::ZoomDelta {
                            anchor,
                            viewport_w: bounds.width,
                            viewport_h: bounds.height,
                            wheel_centilines: y_centilines,
                        },
                    ),
                ),
                None => spec_pan_step(s, e, bounds, cursor),
            }
        },
        _ => spec_pan_step(s, e, bounds, cursor),
    }
}

/// The cursor position in window coordinates, if it is over `bounds`.
fn position_over(cursor: &CursorState, bounds: &PixelRect) -> (r: Option<PixelPoint>)
    requires
        cursor_wf(*cursor),
        rect_wf(*bounds),
    ensures
        r == cursor_position_over(*cursor, *bounds),
{
    match cursor {
        CursorState::Available(p) => {
            if bounds.x <= p.x && p.x < bounds.x + bounds.width && bounds.y <= p.y && p.y
                < bounds.y + bounds.height {
                Some(*p)
            } else {
                None
            }
        },
        CursorState::Unavailable => None,
    }
}

/// The cursor position relative to `bounds`, if it is over `bounds`.
fn position_in(cursor: &CursorState, bounds: &PixelRect) -> (r: Option<PixelPoint>)
    requires
        cursor_wf(*cursor),
        rect_wf(*bounds),
    ensures
        r == cursor_position_in(*cursor, *bounds),
{
    match position_over(cursor, bounds) {
        Some(p) => Some(PixelPoint { x: p.x - bounds.x, y: p.y - bounds.y }),
        None => None,
    }
}

/// Feeds one raw event through the transition table.  The returned
/// status says whether the event was consumed; the returned message, if
/// any, is the view-state delta the event produced, always safe to hand
/// to the view.
pub fn update(
    state: &mut MouseInteraction,
    event: PointerEvent,
    bounds: PixelRect,
    cursor: CursorState,
) -> (r: (EventStatus, Option<Message>))
    requires
        interaction_wf(*old(state)),
        event_wf(event),
        rect_wf(bounds),
        cursor_wf(cursor),
    ensures
        *final(state) == spec_update(*old(state), event, bounds, cursor).0,
        r.0 == spec_update(*old(state), event, bounds, cursor).1,
        r.1 == spec_update(*old(state), event, bounds, cursor).2,
        interaction_wf(*final(state)),
        (match r.1 {
            Some(m) => message_wf(m),
            None => true,
        }),
{
    if let PointerEvent::WheelScrolled { y_centilines } = event {
        if let Some(anchor) = position_in(&cursor, &bounds) {
            return (
                EventStatus::Captured,
                Some(
                    Message::ZoomDelta {
                        anchor,
                        viewport_w: bounds.width,
                        viewport_h: bounds.height,
                        wheel_centilines: y_centilines,
                    },
                ),
            );
        }
    }
    let st: MouseInteraction = *state;
    match st {
        MouseInteraction::Idle => {
            if let PointerEvent::ButtonPressed(MouseButton::Left) = event {
                if let Some(p) = position_over(&cursor, &bounds) {
                    *state = MouseInteraction::Panning(p);
                    return (EventStatus::Captured, None);
                }
            }
            (EventStatus::Ignored, None)
        },
        MouseInteraction::Panning(prev) => {
            match event {
                PointerEvent::ButtonReleased(MouseButton::Left) => {
                    *state = MouseInteraction::Idle;
                    (EventStatus::Ignored, None)
                },
                PointerEvent::CursorMoved(pos) => {
                    *state = MouseInteraction::Panning(pos);
                    (
                        EventStatus::Captured,
                        Some(
                            Message::PanningDelta(
                                PixelPoint { x: pos.x - prev.x, y: pos.y - prev.y },
                            ),
                        ),
                    )
                },
                _ => (EventStatus::Ignored, None),
            }
        },
    }
}

} // verus!
