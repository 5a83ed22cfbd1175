use analog_clock::geometry::recompute_layout;

#[test]
fn layout_square_target() {
    let l = recompute_layout(400, 400);
    assert_eq!(l.ellipse.center_x, 200);
    assert_eq!(l.ellipse.center_y, 200);
    assert_eq!(l.ellipse.radius, 200);
}

#[test]
fn layout_wide_target() {
    let l = recompute_layout(800, 600);
    assert_eq!(l.ellipse.center_x, 400);
    assert_eq!(l.ellipse.center_y, 300);
    assert_eq!(l.ellipse.radius, 300);
}

#[test]
fn layout_tall_target() {
    let l = recompute_layout(100, 400);
    assert_eq!(l.ellipse.center_x, 50);
    assert_eq!(l.ellipse.center_y, 200);
    assert_eq!(l.ellipse.radius, 50);
}

#[test]
fn layout_odd_dimensions_round_down() {
    let l = recompute_layout(401, 399);
    assert_eq!(l.ellipse.center_x, 200);
    assert_eq!(l.ellipse.center_y, 199);
    assert_eq!(l.ellipse.radius, 199);
}

#[test]
fn layout_zero_width_yields_zero_radius() {
    let l = recompute_layout(0, 400);
    assert_eq!(l.ellipse.radius, 0);
    assert_eq!(l.ellipse.center_x, 0);
    assert_eq!(l.ellipse.center_y, 200);
}

#[test]
fn layout_zero_height_yields_zero_radius() {
    let l = recompute_layout(400, 0);
    assert_eq!(l.ellipse.radius, 0);
}

#[test]
fn layout_zero_both_yields_zero_radius() {
    let l = recompute_layout(0, 0);
    assert_eq!(l.ellipse.radius, 0);
    assert_eq!(l.tick_inner.y, 0);
    assert_eq!(l.tick_outer.y, 0);
}

#[test]
fn tick_anchors_on_vertical_axis() {
    let l = recompute_layout(400, 400);
    assert_eq!(l.tick_inner.x, 200);
    assert_eq!(l.tick_outer.x, 200);
    // Inner anchor: nine tenths of the radius above the center.
    assert_eq!(l.tick_inner.y, 200 - 180);
    // Outer anchor: a full radius above the center.
    assert_eq!(l.tick_outer.y, 0);
}
