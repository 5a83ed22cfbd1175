//! The per-frame draw sequence.
//!
//! A frame is a list of drawing commands: clear, fill and outline the face,
//! stroke the twelve tick marks, draw the three hands, and reset the
//! transform so the next frame starts unrotated. Ticks and hands are placed
//! by a rotation transform about the face center, never by precomputed
//! trigonometry, matching the transform stack of the drawing device. The
//! host issues the commands inside a draw session on the real device and
//! reports how the session ended; a report of device loss drops the
//! dependent resource tier for rebuilding on the next paint.

use vstd::prelude::*;

use crate::AppError;
use crate::clock::{
    ClockTime, hour_angle_millideg, minute_angle_millideg, second_angle_millideg,
    spec_hour_angle, spec_minute_angle, spec_second_angle,
};
use crate::geometry::{Ellipse, Layout, Point};
use crate::scene::{Scene, Surface};
use vstd::arithmetic::div_mod::{lemma_div_is_ordered, lemma_div_multiples_vanish};
use vstd::arithmetic::mul::lemma_mul_inequality;

verus! {

/// Number of tick marks around the face, one per hour position.
pub const TICK_COUNT: u32 = 12;

/// Millidegrees between two neighboring tick marks.
pub const MILLIDEG_PER_TICK: u32 = 30_000;

/// Stroke width of the face outline, in pixels.
pub const FACE_STROKE_WIDTH: u32 = 1;

/// Stroke width of a tick mark, in pixels.
pub const TICK_STROKE_WIDTH: u32 = 1;

/// Hand lengths, as percent of the face radius.
pub const HOUR_HAND_LENGTH_PERCENT: u32 = 60;

pub const MINUTE_HAND_LENGTH_PERCENT: u32 = 85;

pub const SECOND_HAND_LENGTH_PERCENT: u32 = 85;

/// Hand stroke widths, in pixels.
pub const HOUR_HAND_STROKE_WIDTH: u32 = 6;

pub const MINUTE_HAND_STROKE_WIDTH: u32 = 4;

pub const SECOND_HAND_STROKE_WIDTH: u32 = 1;

/// Which of the scene's two brushes a command draws with.
#[derive(Clone, Copy, Debug, PartialEq, Eq, Structural)]
pub enum BrushKind {
    Fill,
    Stroke,
}

/// One drawing command of a frame. The host maps each to a call on the real
/// device, inside a single draw session.
#[derive(Clone, Copy, Debug, PartialEq, Eq, Structural)]
pub enum DrawCmd {
    /// Clear the target to the fixed background color.
    Clear,
    /// Fill the face ellipse.
    FillEllipse { ellipse: Ellipse, brush: BrushKind },
    /// Stroke the face outline.
    DrawEllipse { ellipse: Ellipse, brush: BrushKind, stroke_width: u32 },
    /// Replace the device transform by a clockwise rotation about `center`.
    SetRotation { angle_millideg: u32, center: Point },
    /// Stroke a line under the current transform.
    DrawLine { from: Point, to: Point, brush: BrushKind, stroke_width: u32 },
    /// Restore the identity transform.
    ResetTransform,
}

/// How the host reports the end of a draw session.
#[derive(Clone, Copy, Debug, PartialEq, Eq, Structural)]
pub enum EndDrawStatus {
    /// The session ended cleanly and the frame was presented.
    Completed,
    /// The device was lost; the dependent resource tier must be recreated.
    RecreateTarget,
    /// The session failed for some other reason; the frame is lost.
    Failed,
}

/// The center of the face, as a point.
pub open spec fn spec_center(e: Ellipse) -> Point {
    Point { x: e.center_x, y: e.center_y }
}

/// The two commands that draw one hand: rotate about the center by the
/// hand's angle, then stroke a line from the center straight up to
/// `length_percent` of the radius.
pub open spec fn spec_hand_cmds(
    e: Ellipse,
    length_percent: u32,
    angle_millideg: u32,
    stroke_width: u32,
) -> Seq<DrawCmd> {
    seq![
        DrawCmd::SetRotation { angle_millideg, center: spec_center(e) },
        DrawCmd::DrawLine {
            from: spec_center(e),
            to: Point {
                x: e.center_x,
                y: (e.center_y - e.radius * length_percent / 100) as u32,
            },
            brush: BrushKind::Stroke,
            stroke_width,
        },
    ]
}

/// The two commands that draw tick mark `i`: rotate by `i` tick steps, then
/// stroke the anchor line.
pub open spec fn spec_tick_cmds_at(l: Layout, i: int) -> Seq<DrawCmd> {
    seq![
        DrawCmd::SetRotation {
            angle_millideg: (MILLIDEG_PER_TICK as int * i) as u32,
            center: spec_center(l.ellipse),
        },
        DrawCmd::DrawLine {
            from: l.tick_inner,
            to: l.tick_outer,
            brush: BrushKind::Stroke,
            stroke_width: TICK_STROKE_WIDTH,
        },
    ]
}

/// The commands for the first `n` tick marks, in order.
pub open spec fn spec_tick_cmds(l: Layout, n: int) -> Seq<DrawCmd>
    decreases n,
{
    if n <= 0 {
        Seq::empty()
    } else {
        spec_tick_cmds(l, n - 1) + spec_tick_cmds_at(l, n - 1)
    }
}

/// The commands that open a frame: clear, fill the face, stroke its outline.
pub open spec fn spec_frame_prefix(l: Layout) -> Seq<DrawCmd> {
    seq![
        DrawCmd::Clear,
        DrawCmd::FillEllipse { ellipse: l.ellipse, brush: BrushKind::Fill },
        DrawCmd::DrawEllipse {
            ellipse: l.ellipse,
            brush: BrushKind::Stroke,
            stroke_width: FACE_STROKE_WIDTH,
        },
    ]
}

/// The whole frame for a given layout and clock snapshot: prefix, twelve
/// ticks, the three hands, and the transform reset.
pub open spec fn spec_scene_cmds(l: Layout, t: ClockTime) -> Seq<DrawCmd> {
    spec_frame_prefix(l) + spec_tick_cmds(l, TICK_COUNT as int) + spec_hand_cmds(
        l.ellipse,
        HOUR_HAND_LENGTH_PERCENT,
        spec_hour_angle(t.hour as int, t.minute as int) as u32,
        HOUR_HAND_STROKE_WIDTH,
    ) + spec_hand_cmds(
        l.ellipse,
        MINUTE_HAND_LENGTH_PERCENT,
        spec_minute_angle(t.minute as int) as u32,
        MINUTE_HAND_STROKE_WIDTH,
    ) + spec_hand_cmds(
        l.ellipse,
        SECOND_HAND_LENGTH_PERCENT,
        spec_second_angle(t.second as int, t.millisecond as int) as u32,
        SECOND_HAND_STROKE_WIDTH,
    ) + seq![DrawCmd::ResetTransform]
}

/// The first `n` tick marks take two commands each.
pub proof fn lemma_tick_cmds_len(l: Layout, n: int)
    requires
        n >= 0,
    ensures
        spec_tick_cmds(l, n).len() == 2 * n,
    decreases n,
{
    if n > 0 {
        lemma_tick_cmds_len(l, n - 1);
    }
}

/// A frame always has the same shape: three commands for clear and face,
/// two for each of the twelve ticks, two for each of the three hands, and
/// the transform reset — thirty-four in all.
pub proof fn lemma_scene_cmds_len(l: Layout, t: ClockTime)
    ensures
        spec_scene_cmds(l, t).len() == 34,
{
    lemma_tick_cmds_len(l, TICK_COUNT as int);
}

/// A hand never reaches past the face: its endpoint offset is at most the
/// radius.
proof fn lemma_hand_length_le_radius(radius: int, length_percent: int)
    requires
        radius >= 0,
        0 <= length_percent <= 100,
    ensures
        radius * length_percent / 100 <= radius,
{
    lemma_mul_inequality(length_percent, 100, radius);
    lemma_div_is_ordered(radius * length_percent, radius * 100, 100);
    lemma_div_multiples_vanish(radius, 100);
    assert(radius * 100 == 100 * radius);
}

impl Scene {
    /// Appends the two commands that draw one hand at the given angle.
    pub fn draw_clock_hand(
        &self,
        cmds: &mut Vec<DrawCmd>,
        length_percent: u32,
        angle_millideg: u32,
        stroke_width: u32,
    )
        requires
            self.layout.wf(),
            length_percent <= 100,
        ensures
            final (cmds)@ == old(cmds)@ + spec_hand_cmds(
                self.layout.ellipse,
                length_percent,
                angle_millideg,
                stroke_width,
            ),
    {
        let e = self.layout.ellipse;
        let center = Point { x: e.center_x, y: e.center_y };
        proof {
            lemma_hand_length_le_radius(e.radius as int, length_percent as int);
        }
        let scaled: u64 = (e.radius as u64) * (length_percent as u64) / 100;
        let end_y: u32 = e.center_y - (scaled as u32);
        cmds.push(DrawCmd::SetRotation { angle_millideg, center });
        cmds.push(
            DrawCmd::DrawLine {
                from: center,
                to: Point { x: e.center_x, y: end_y },
                brush: BrushKind::Stroke,
                stroke_width,
            },
        );
        proof {
            assert(cmds@ =~= old(cmds)@ + spec_hand_cmds(
                e,
                length_percent,
                angle_millideg,
                stroke_width,
            ));
        }
    }

    /// Produces the draw commands of one frame from the current layout and
    /// the sampled clock: strictly ordered as clear, face, ticks, hands,
    /// transform reset.
    pub fn render_scene(&self, time: ClockTime) -> (cmds: Vec<DrawCmd>)
        requires
            self.wf(),
            self.state is Ready,
            time.wf(),
        ensures
            cmds@ == spec_scene_cmds(self.layout, time),
    {
        let layout = self.layout;
        let mut cmds: Vec<DrawCmd> = Vec::new();
        cmds.push(DrawCmd::Clear);
        cmds.push(DrawCmd::FillEllipse { ellipse: layout.ellipse, brush: BrushKind::Fill });
        cmds.push(
            DrawCmd::DrawEllipse {
                ellipse: layout.ellipse,
                brush: BrushKind::Stroke,
                stroke_width: FACE_STROKE_WIDTH,
            },
        );
        proof {
            assert(cmds@ =~= spec_frame_prefix(layout) + spec_tick_cmds(layout, 0));
        }
        let center = Point { x: layout.ellipse.center_x, y: layout.ellipse.center_y };
        let mut i: u32 = 0;
        while i < TICK_COUNT
            invariant
                i <= TICK_COUNT,
                layout == self.layout,
                center == spec_center(layout.ellipse),
                cmds@ == spec_frame_prefix(layout) + spec_tick_cmds(layout, i as int),
            decreases TICK_COUNT - i,
        {
            cmds.push(
                DrawCmd::SetRotation { angle_millideg: MILLIDEG_PER_TICK * i, center },
            );
            cmds.push(
                DrawCmd::DrawLine {
                    from: layout.tick_inner,
                    to: layout.tick_outer,
                    brush: BrushKind::Stroke,
                    stroke_width: TICK_STROKE_WIDTH,
                },
            );
            proof {
                assert(spec_tick_cmds(layout, i as int + 1) =~= spec_tick_cmds(layout, i as int)
                    + spec_tick_cmds_at(layout, i as int));
                assert(cmds@ =~= spec_frame_prefix(layout) + spec_tick_cmds(
                    layout,
                    i as int + 1,
                ));
            }
            i = i + 1;
        }
        let hour_angle = hour_angle_millideg(time.hour, time.minute);
        let minute_angle = minute_angle_millideg(time.minute);
        let second_angle = second_angle_millideg(time.second, time.millisecond);
        self.draw_clock_hand(&mut cmds, HOUR_HAND_LENGTH_PERCENT, hour_angle, HOUR_HAND_STROKE_WIDTH);
        self.draw_clock_hand(
            &mut cmds,
            MINUTE_HAND_LENGTH_PERCENT,
            minute_angle,
            MINUTE_HAND_STROKE_WIDTH,
        );
        self.draw_clock_hand(
            &mut cmds,
            SECOND_HAND_LENGTH_PERCENT,
            second_angle,
            SECOND_HAND_STROKE_WIDTH,
        );
        cmds.push(DrawCmd::ResetTransform);
        proof {
            assert(cmds@ =~= spec_scene_cmds(layout, time));
        }
        cmds
    }

    /// One paint: makes sure the dependent resource tier exists, then builds
    /// the frame's commands. When creation fails the frame is skipped and
    /// the error says why; the scene is then exactly as the creation
    /// transition left it.
    pub fn render(&mut self, surface: Surface, time: ClockTime) -> (r: Result<
        Vec<DrawCmd>,
        AppError,
    >)
        requires
            old(self).wf(),
            !(old(self).state is Destroyed),
            time.wf(),
        ensures
            final (self).wf(),
            *final (self) == old(self).spec_ensure_resources(surface).0,
            r is Ok <==> old(self).spec_ensure_resources(surface).1 is Ok,
            r matches Ok(cmds) ==> cmds@ == spec_scene_cmds(final (self).layout, time),
            r matches Err(e) ==> Err::<(), AppError>(e) == old(self).spec_ensure_resources(
                surface,
            ).1,
    {
        match self.create_graphics_resources(surface) {
            Ok(()) => Ok(self.render_scene(time)),
            Err(e) => Err(e),
        }
    }

    /// Takes the host's report of how the draw session ended. Device loss
    /// drops the dependent tier (the next paint rebuilds it) and is returned
    /// as `DeviceLost`; any other failure leaves the scene untouched and is
    /// surfaced as `DrawFailed`. Neither is a crash.
    pub fn finish_frame(&mut self, status: EndDrawStatus) -> (r: Result<(), AppError>)
        requires
            old(self).wf(),
        ensures
            final (self).wf(),
            status is Completed ==> *final (self) == *old(self) && r == Ok::<(), AppError>(()),
            status is RecreateTarget ==> *final (self) == old(self).spec_device_lost() && r == Err::<
                (),
                AppError,
            >(AppError::DeviceLost),
            status is Failed ==> *final (self) == *old(self) && r == Err::<(), AppError>(
                AppError::DrawFailed,
            ),
    {
        match status {
            EndDrawStatus::Completed => Ok(()),
            EndDrawStatus::RecreateTarget => {
                self.discard_device_dependent_resources();
                Err(AppError::DeviceLost)
            },
            EndDrawStatus::Failed => Err(AppError::DrawFailed),
        }
    }
}

} // verus!
