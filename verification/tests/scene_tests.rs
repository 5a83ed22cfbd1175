use analog_clock::scene::{ResourceState, Scene, Surface};
use analog_clock::AppError;

fn valid_surface(width: u32, height: u32) -> Surface {
    Surface { handle_valid: true, width, height }
}

#[test]
fn initial_scene_has_no_dependent_resources() {
    let s = Scene::initial();
    assert_eq!(s.state, ResourceState::Uninitialized);
    assert!(s.render_target.is_none());
    assert!(s.fill_brush.is_none());
    assert!(s.stroke_brush.is_none());
}

#[test]
fn new_scene_is_ok() {
    let s = Scene::new().unwrap();
    assert_eq!(s.state, ResourceState::Uninitialized);
}

#[test]
fn ensure_creates_target_brushes_and_layout() {
    let mut s = Scene::initial();
    let r = s.create_graphics_resources(valid_surface(400, 400));
    assert_eq!(r, Ok(()));
    assert_eq!(s.state, ResourceState::Ready);
    let target = s.render_target.unwrap();
    assert_eq!(target.width, 400);
    assert_eq!(target.height, 400);
    assert_eq!(s.layout.ellipse.radius, 200);
    assert_eq!(s.layout.ellipse.center_x, 200);
    assert_eq!(s.layout.ellipse.center_y, 200);
    // Target and brushes carry three distinct fresh identities.
    let fill = s.fill_brush.unwrap();
    let stroke = s.stroke_brush.unwrap();
    assert_ne!(target.id, fill.id);
    assert_ne!(target.id, stroke.id);
    assert_ne!(fill.id, stroke.id);
}

#[test]
fn ensure_is_idempotent_when_ready() {
    let mut s = Scene::initial();
    s.create_graphics_resources(valid_surface(400, 400)).unwrap();
    let target_before = s.render_target.unwrap();
    let fill_before = s.fill_brush.unwrap();
    let stroke_before = s.stroke_brush.unwrap();

    let r = s.create_graphics_resources(valid_surface(400, 400));
    assert_eq!(r, Ok(()));
    // No reallocation: the same identities remain.
    assert_eq!(s.render_target.unwrap(), target_before);
    assert_eq!(s.fill_brush.unwrap(), fill_before);
    assert_eq!(s.stroke_brush.unwrap(), stroke_before);
}

#[test]
fn ensure_fails_without_valid_handle() {
    let mut s = Scene::initial();
    let r = s.create_graphics_resources(Surface { handle_valid: false, width: 400, height: 400 });
    assert_eq!(r, Err(AppError::ResourceCreation));
    assert_eq!(s.state, ResourceState::Uninitialized);
    assert!(s.render_target.is_none());
    assert!(s.fill_brush.is_none());
    assert!(s.stroke_brush.is_none());
}

#[test]
fn rebuild_after_device_loss_is_fresh() {
    let mut s = Scene::initial();
    s.create_graphics_resources(valid_surface(400, 400)).unwrap();
    let target_before = s.render_target.unwrap();
    let fill_before = s.fill_brush.unwrap();
    let stroke_before = s.stroke_brush.unwrap();

    s.discard_device_dependent_resources();
    assert_eq!(s.state, ResourceState::Lost);
    assert!(s.render_target.is_none());
    assert!(s.fill_brush.is_none());
    assert!(s.stroke_brush.is_none());

    let r = s.create_graphics_resources(valid_surface(400, 400));
    assert_eq!(r, Ok(()));
    assert_eq!(s.state, ResourceState::Ready);
    // A genuine recreation: every identity changed.
    assert_ne!(s.render_target.unwrap().id, target_before.id);
    assert_ne!(s.fill_brush.unwrap().id, fill_before.id);
    assert_ne!(s.stroke_brush.unwrap().id, stroke_before.id);
}

#[test]
fn resize_keeps_identity_and_recomputes_layout() {
    let mut s = Scene::initial();
    s.create_graphics_resources(valid_surface(400, 400)).unwrap();
    let target_before = s.render_target.unwrap();
    let fill_before = s.fill_brush.unwrap();
    let stroke_before = s.stroke_brush.unwrap();
    assert_eq!(s.layout.ellipse.radius, 200);

    let redraw = s.resize(800, 600);
    assert!(redraw);
    let target = s.render_target.unwrap();
    // Same target, new size; brushes untouched.
    assert_eq!(target.id, target_before.id);
    assert_eq!(target.width, 800);
    assert_eq!(target.height, 600);
    assert_eq!(s.fill_brush.unwrap(), fill_before);
    assert_eq!(s.stroke_brush.unwrap(), stroke_before);
    assert_eq!(s.layout.ellipse.radius, 300);
    assert_eq!(s.layout.ellipse.center_x, 400);
    assert_eq!(s.layout.ellipse.center_y, 300);
}

#[test]
fn resize_before_creation_is_a_noop() {
    let mut s = Scene::initial();
    let redraw = s.resize(800, 600);
    assert!(!redraw);
    assert_eq!(s.state, ResourceState::Uninitialized);
    assert!(s.render_target.is_none());
}

#[test]
fn calculate_layout_follows_the_target() {
    let mut s = Scene::initial();
    // Without a target, nothing to derive geometry from.
    let layout_before = s.layout;
    s.calculate_layout();
    assert_eq!(s.layout, layout_before);

    s.create_graphics_resources(valid_surface(500, 300)).unwrap();
    s.calculate_layout();
    assert_eq!(s.layout.ellipse.center_x, 250);
    assert_eq!(s.layout.ellipse.center_y, 150);
    assert_eq!(s.layout.ellipse.radius, 150);
}

#[test]
fn cleanup_is_idempotent_and_terminal() {
    let mut s = Scene::initial();
    s.create_graphics_resources(valid_surface(400, 400)).unwrap();
    s.cleanup();
    assert_eq!(s.state, ResourceState::Destroyed);
    assert!(s.render_target.is_none());
    assert!(s.fill_brush.is_none());
    assert!(s.stroke_brush.is_none());
    let after_first = (s.state, s.next_resource_id);
    s.cleanup();
    assert_eq!((s.state, s.next_resource_id), after_first);
}
