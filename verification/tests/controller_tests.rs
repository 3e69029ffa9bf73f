use fractal_nav::controller::{
    update, CursorState, EventStatus, Message, MouseButton, MouseInteraction, PixelPoint,
    PixelRect, PointerEvent,
};

fn bounds() -> PixelRect {
    PixelRect { x: 0, y: 0, width: 800, height: 600 }
}

fn at(x: i64, y: i64) -> CursorState {
    CursorState::Available(PixelPoint { x, y })
}

#[test]
fn press_then_move_emits_one_pan_delta() {
    let mut state = MouseInteraction::default();
    assert_eq!(state, MouseInteraction::Idle);

    let (status, msg) = update(
        &mut state,
        PointerEvent::ButtonPressed(MouseButton::Left),
        bounds(),
        at(100, 100),
    );
    assert_eq!(status, EventStatus::Captured);
    assert!(msg.is_none());
    assert_eq!(state, MouseInteraction::Panning(PixelPoint { x: 100, y: 100 }));

    let (status, msg) = update(
        &mut state,
        PointerEvent::CursorMoved(PixelPoint { x: 110, y: 100 }),
        bounds(),
        at(110, 100),
    );
    assert_eq!(status, EventStatus::Captured);
    assert_eq!(msg, Some(Message::PanningDelta(PixelPoint { x: 10, y: 0 })));
    assert_eq!(state, MouseInteraction::Panning(PixelPoint { x: 110, y: 100 }));

    let (status, msg) = update(
        &mut state,
        PointerEvent::ButtonReleased(MouseButton::Left),
        bounds(),
        at(110, 100),
    );
    assert_eq!(status, EventStatus::Ignored);
    assert!(msg.is_none());
    assert_eq!(state, MouseInteraction::Idle);
}

#[test]
fn wheel_over_viewport_emits_zoom_delta() {
    let mut state = MouseInteraction::Idle;
    let (status, msg) = update(
        &mut state,
        PointerEvent::WheelScrolled { y_centilines: 100 },
        bounds(),
        at(400, 300),
    );
    assert_eq!(status, EventStatus::Captured);
    assert_eq!(
        msg,
        Some(Message::ZoomDelta {
            anchor: PixelPoint { x: 400, y: 300 },
            viewport_w: 800,
            viewport_h: 600,
            wheel_centilines: 100,
        })
    );
    assert_eq!(state, MouseInteraction::Idle);
}

#[test]
fn wheel_anchor_is_viewport_relative() {
    let mut state = MouseInteraction::Idle;
    let shifted = PixelRect { x: 10, y: 20, width: 800, height: 600 };
    let (status, msg) = update(
        &mut state,
        PointerEvent::WheelScrolled { y_centilines: -50 },
        shifted,
        at(400, 300),
    );
    assert_eq!(status, EventStatus::Captured);
    assert_eq!(
        msg,
        Some(Message::ZoomDelta {
            anchor: PixelPoint { x: 390, y: 280 },
            viewport_w: 800,
            viewport_h: 600,
            wheel_centilines: -50,
        })
    );
}

#[test]
fn wheel_while_panning_zooms_without_touching_the_drag() {
    let anchor = PixelPoint { x: 50, y: 60 };
    let mut state = MouseInteraction::Panning(anchor);
    let (status, msg) = update(
        &mut state,
        PointerEvent::WheelScrolled { y_centilines: 100 },
        bounds(),
        at(200, 200),
    );
    assert_eq!(status, EventStatus::Captured);
    assert!(matches!(msg, Some(Message::ZoomDelta { .. })));
    assert_eq!(state, MouseInteraction::Panning(anchor));
}

#[test]
fn wheel_outside_viewport_is_ignored() {
    let mut state = MouseInteraction::Idle;
    let (status, msg) = update(
        &mut state,
        PointerEvent::WheelScrolled { y_centilines: 100 },
        bounds(),
        at(900, 300),
    );
    assert_eq!(status, EventStatus::Ignored);
    assert!(msg.is_none());
    assert_eq!(state, MouseInteraction::Idle);

    let (status, msg) = update(
        &mut state,
        PointerEvent::WheelScrolled { y_centilines: 100 },
        bounds(),
        CursorState::Unavailable,
    );
    assert_eq!(status, EventStatus::Ignored);
    assert!(msg.is_none());
    assert_eq!(state, MouseInteraction::Idle);
}

#[test]
fn idle_ignores_everything_but_a_press_over_the_viewport() {
    let mut state = MouseInteraction::Idle;

    let (status, msg) = update(
        &mut state,
        PointerEvent::ButtonReleased(MouseButton::Left),
        bounds(),
        at(100, 100),
    );
    assert_eq!((status, msg), (EventStatus::Ignored, None));
    assert_eq!(state, MouseInteraction::Idle);

    let (status, msg) = update(
        &mut state,
        PointerEvent::CursorMoved(PixelPoint { x: 5, y: 5 }),
        bounds(),
        at(5, 5),
    );
    assert_eq!((status, msg), (EventStatus::Ignored, None));
    assert_eq!(state, MouseInteraction::Idle);

    let (status, msg) = update(
        &mut state,
        PointerEvent::ButtonPressed(MouseButton::Right),
        bounds(),
        at(100, 100),
    );
    assert_eq!((status, msg), (EventStatus::Ignored, None));
    assert_eq!(state, MouseInteraction::Idle);

    // press outside the viewport
    let (status, msg) = update(
        &mut state,
        PointerEvent::ButtonPressed(MouseButton::Left),
        bounds(),
        at(900, 700),
    );
    assert_eq!((status, msg), (EventStatus::Ignored, None));
    assert_eq!(state, MouseInteraction::Idle);

    let (status, msg) = update(&mut state, PointerEvent::Other, bounds(), at(100, 100));
    assert_eq!((status, msg), (EventStatus::Ignored, None));
    assert_eq!(state, MouseInteraction::Idle);
}

#[test]
fn panning_ignores_everything_but_moves_and_the_primary_release() {
    let anchor = PixelPoint { x: 100, y: 100 };
    let mut state = MouseInteraction::Panning(anchor);

    let (status, msg) = update(
        &mut state,
        PointerEvent::ButtonPressed(MouseButton::Left),
        bounds(),
        at(100, 100),
    );
    assert_eq!((status, msg), (EventStatus::Ignored, None));
    assert_eq!(state, MouseInteraction::Panning(anchor));

    let (status, msg) = update(
        &mut state,
        PointerEvent::ButtonReleased(MouseButton::Middle),
        bounds(),
        at(100, 100),
    );
    assert_eq!((status, msg), (EventStatus::Ignored, None));
    assert_eq!(state, MouseInteraction::Panning(anchor));

    let (status, msg) = update(&mut state, PointerEvent::Other, bounds(), at(100, 100));
    assert_eq!((status, msg), (EventStatus::Ignored, None));
    assert_eq!(state, MouseInteraction::Panning(anchor));
}

#[test]
fn release_without_press_is_harmless() {
    let mut state = MouseInteraction::Idle;
    let (status, msg) = update(
        &mut state,
        PointerEvent::ButtonReleased(MouseButton::Left),
        bounds(),
        CursorState::Unavailable,
    );
    assert_eq!((status, msg), (EventStatus::Ignored, None));
    assert_eq!(state, MouseInteraction::Idle);
}

#[test]
fn moves_outside_the_viewport_still_pan_during_a_drag() {
    // a grabbed pointer keeps panning even past the viewport edge
    let mut state = MouseInteraction::Panning(PixelPoint { x: 790, y: 300 });
    let (status, msg) = update(
        &mut state,
        PointerEvent::CursorMoved(PixelPoint { x: 850, y: 310 }),
        bounds(),
        at(850, 310),
    );
    assert_eq!(status, EventStatus::Captured);
    assert_eq!(msg, Some(Message::PanningDelta(PixelPoint { x: 60, y: 10 })));
    assert_eq!(state, MouseInteraction::Panning(PixelPoint { x: 850, y: 310 }));
}
