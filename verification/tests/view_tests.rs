use fractal_nav::scale::{scale_q64, SCALE_MAX_Q64, ZOOM_DEFAULT_CENTI, ZOOM_MAX_CENTI, ZOOM_MIN_CENTI};
use fractal_nav::view::{ViewState, CENTER_DEFAULT_X_Q64, CENTER_DEFAULT_Y_Q64, ITERS_DEFAULT};

#[test]
fn default_view_matches_startup_values() {
    let v = ViewState::new();
    assert_eq!(v.zoom_centi, ZOOM_DEFAULT_CENTI);
    assert_eq!(v.zoom_centi, 200);
    assert_eq!(v.center_x_q64, CENTER_DEFAULT_X_Q64);
    assert_eq!(v.center_x_q64, -27670116110564327424);
    assert_eq!(v.center_y_q64, CENTER_DEFAULT_Y_Q64);
    assert_eq!(v.max_iterations, ITERS_DEFAULT);
    assert_eq!(v.max_iterations, 20);
    let d = ViewState::default();
    assert_eq!(d, v);
}

#[test]
fn scale_exact_values_at_known_zooms() {
    // floor((200 - r) * 2^64 / (40000 * 2^q)), exact at whole zoom units:
    // 2^64 / (200 * 2^zoom).
    assert_eq!(scale_q64(100), 46116860184273879);
    assert_eq!(scale_q64(100), SCALE_MAX_Q64);
    assert_eq!(scale_q64(200), 23058430092136939);
    assert_eq!(scale_q64(220), 20752587082923245);
    assert_eq!(scale_q64(1700), 703687441776);
}

#[test]
fn scale_is_positive_and_strictly_decreasing_everywhere() {
    let mut prev = scale_q64(ZOOM_MIN_CENTI);
    let mut z = ZOOM_MIN_CENTI + 1;
    while z <= ZOOM_MAX_CENTI {
        let s = scale_q64(z);
        assert!(s > 0);
        assert!(s < prev, "scale must strictly decrease at zoom {z}");
        prev = s;
        z += 1;
    }
}

#[test]
fn pan_moves_center_against_pointer_motion() {
    let mut v = ViewState::new();
    v.apply_pan(10, 0);
    // center -= 2 * delta * scale(2.00)
    assert_eq!(v.center_x_q64, -28131284712407066204);
    assert_eq!(v.center_y_q64, 0);
    assert_eq!(v.zoom_centi, 200);
    assert_eq!(v.max_iterations, 20);
}

#[test]
fn pans_compose_additively_at_fixed_zoom() {
    let mut a = ViewState::new();
    a.apply_pan(3, 4);
    a.apply_pan(5, -2);
    let mut b = ViewState::new();
    b.apply_pan(8, 2);
    assert_eq!(a, b);
}

#[test]
fn zoom_at_viewport_center_keeps_center() {
    let mut v = ViewState::new();
    v.apply_zoom(400, 300, 800, 600, 100);
    assert_eq!(v.zoom_centi, 220);
    assert_eq!(v.center_x_q64, CENTER_DEFAULT_X_Q64);
    assert_eq!(v.center_y_q64, CENTER_DEFAULT_Y_Q64);
}

#[test]
fn zoom_off_center_pivots_around_anchor() {
    let mut v = ViewState::new();
    v.apply_zoom(600, 300, 800, 600, 100);
    assert_eq!(v.zoom_centi, 220);
    // center += (2 * 600 - 800) * (scale(2.00) - scale(2.20))
    assert_eq!(v.center_x_q64, -26747778906878849824);
    assert_eq!(v.center_y_q64, 0);
}

#[test]
fn zoom_increase_at_max_changes_nothing() {
    let mut v = ViewState::new();
    v.set_zoom(ZOOM_MAX_CENTI);
    let before = v;
    v.apply_zoom(123, 456, 800, 600, 300);
    assert_eq!(v, before);
}

#[test]
fn zoom_decrease_at_min_changes_nothing() {
    let mut v = ViewState::new();
    v.set_zoom(ZOOM_MIN_CENTI);
    let before = v;
    v.apply_zoom(123, 456, 800, 600, -300);
    assert_eq!(v, before);
}

#[test]
fn wheel_delta_scales_by_fifth_of_a_centiline() {
    let mut v = ViewState::new();
    // half a line up: 0.5 * 0.2 = 0.1 zoom units
    v.apply_zoom(400, 300, 800, 600, 50);
    assert_eq!(v.zoom_centi, 210);
    // a line and a half down
    v.apply_zoom(400, 300, 800, 600, -150);
    assert_eq!(v.zoom_centi, 180);
}

#[test]
fn set_zoom_clamps_to_bounds() {
    let mut v = ViewState::new();
    v.set_zoom(5000);
    assert_eq!(v.zoom_centi, ZOOM_MAX_CENTI);
    v.set_zoom(50);
    assert_eq!(v.zoom_centi, ZOOM_MIN_CENTI);
    v.set_zoom(437);
    assert_eq!(v.zoom_centi, 437);
}

#[test]
fn set_max_iterations_clamps_to_bounds() {
    let mut v = ViewState::new();
    v.set_max_iterations(500);
    assert_eq!(v.max_iterations, 200);
    v.set_max_iterations(10);
    assert_eq!(v.max_iterations, 20);
    v.set_max_iterations(150);
    assert_eq!(v.max_iterations, 150);
}
