use analog_clock::clock::ClockTime;
use analog_clock::render::{BrushKind, DrawCmd, EndDrawStatus};
use analog_clock::scene::{ResourceState, Scene, Surface};
use analog_clock::AppError;

fn ready_scene(width: u32, height: u32) -> Scene {
    let mut s = Scene::initial();
    s.create_graphics_resources(Surface { handle_valid: true, width, height })
        .unwrap();
    s
}

#[test]
fn frame_has_the_fixed_shape() {
    let s = ready_scene(400, 400);
    let cmds = s.render_scene(ClockTime::new(6, 30, 0, 0));
    // Clear + fill + outline, 12 ticks of two commands, 3 hands of two
    // commands, and the transform reset.
    assert_eq!(cmds.len(), 3 + 24 + 6 + 1);
    assert_eq!(cmds[0], DrawCmd::Clear);
    assert!(matches!(cmds[1], DrawCmd::FillEllipse { brush: BrushKind::Fill, .. }));
    assert!(matches!(
        cmds[2],
        DrawCmd::DrawEllipse { brush: BrushKind::Stroke, stroke_width: 1, .. }
    ));
    assert_eq!(cmds[33], DrawCmd::ResetTransform);
}

#[test]
fn ticks_rotate_in_thirty_degree_steps() {
    let s = ready_scene(400, 400);
    let cmds = s.render_scene(ClockTime::new(0, 0, 0, 0));
    for i in 0..12u32 {
        let rot = cmds[(3 + 2 * i) as usize];
        match rot {
            DrawCmd::SetRotation { angle_millideg, center } => {
                assert_eq!(angle_millideg, 30_000 * i);
                assert_eq!((center.x, center.y), (200, 200));
            }
            other => panic!("expected a rotation, got {:?}", other),
        }
        let line = cmds[(4 + 2 * i) as usize];
        match line {
            DrawCmd::DrawLine { from, to, brush, stroke_width } => {
                // The unrotated tick anchors: from nine tenths of the radius
                // up to the full radius.
                assert_eq!((from.x, from.y), (200, 20));
                assert_eq!((to.x, to.y), (200, 0));
                assert_eq!(brush, BrushKind::Stroke);
                assert_eq!(stroke_width, 1);
            }
            other => panic!("expected a line, got {:?}", other),
        }
    }
}

#[test]
fn hands_at_half_past_six() {
    let s = ready_scene(400, 400);
    let cmds = s.render_scene(ClockTime::new(6, 30, 0, 0));

    // Hour hand: 195 degrees, 60% of the radius, width 6.
    match (cmds[27], cmds[28]) {
        (
            DrawCmd::SetRotation { angle_millideg, .. },
            DrawCmd::DrawLine { from, to, stroke_width, .. },
        ) => {
            assert_eq!(angle_millideg, 195_000);
            assert_eq!((from.x, from.y), (200, 200));
            assert_eq!((to.x, to.y), (200, 200 - 120));
            assert_eq!(stroke_width, 6);
        }
        other => panic!("expected the hour hand, got {:?}", other),
    }

    // Minute hand: 180 degrees, 85% of the radius, width 4.
    match (cmds[29], cmds[30]) {
        (
            DrawCmd::SetRotation { angle_millideg, .. },
            DrawCmd::DrawLine { to, stroke_width, .. },
        ) => {
            assert_eq!(angle_millideg, 180_000);
            assert_eq!((to.x, to.y), (200, 200 - 170));
            assert_eq!(stroke_width, 4);
        }
        other => panic!("expected the minute hand, got {:?}", other),
    }

    // Second hand: 0 degrees, 85% of the radius, width 1.
    match (cmds[31], cmds[32]) {
        (
            DrawCmd::SetRotation { angle_millideg, .. },
            DrawCmd::DrawLine { to, stroke_width, .. },
        ) => {
            assert_eq!(angle_millideg, 0);
            assert_eq!((to.x, to.y), (200, 30));
            assert_eq!(stroke_width, 1);
        }
        other => panic!("expected the second hand, got {:?}", other),
    }
}

#[test]
fn zero_radius_face_renders_without_failing() {
    let s = ready_scene(0, 0);
    assert_eq!(s.layout.ellipse.radius, 0);
    let cmds = s.render_scene(ClockTime::new(1, 2, 3, 4));
    assert_eq!(cmds.len(), 34);
    assert_eq!(cmds[0], DrawCmd::Clear);
}

#[test]
fn render_creates_resources_then_draws() {
    let mut s = Scene::initial();
    let r = s.render(
        Surface { handle_valid: true, width: 400, height: 400 },
        ClockTime::new(6, 30, 0, 0),
    );
    let cmds = r.unwrap();
    assert_eq!(s.state, ResourceState::Ready);
    assert_eq!(cmds.len(), 34);
}

#[test]
fn render_skips_the_frame_without_a_valid_surface() {
    let mut s = Scene::initial();
    let r = s.render(
        Surface { handle_valid: false, width: 400, height: 400 },
        ClockTime::new(6, 30, 0, 0),
    );
    assert_eq!(r, Err(AppError::ResourceCreation));
    assert_eq!(s.state, ResourceState::Uninitialized);
}

#[test]
fn finish_frame_reports() {
    let mut s = ready_scene(400, 400);
    assert_eq!(s.finish_frame(EndDrawStatus::Completed), Ok(()));
    assert_eq!(s.state, ResourceState::Ready);

    assert_eq!(s.finish_frame(EndDrawStatus::Failed), Err(AppError::DrawFailed));
    assert_eq!(s.state, ResourceState::Ready);

    assert_eq!(
        s.finish_frame(EndDrawStatus::RecreateTarget),
        Err(AppError::DeviceLost)
    );
    assert_eq!(s.state, ResourceState::Lost);
    assert!(s.render_target.is_none());
    assert!(s.fill_brush.is_none());
    assert!(s.stroke_brush.is_none());
}
