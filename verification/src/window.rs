//! Per-window state and the host notification entry points.
//!
//! The host (the native window system) owns the window, its message queue,
//! the drawing device and the waitable timer. It creates one `WindowState`
//! alongside the window and routes every notification here as plain values:
//! surface created, paint, resize, timer wake, draw-session report, destroy.
//! The context decides; the host performs — it issues the returned draw
//! commands on the device, invalidates the surface when asked, and
//! terminates on a fatal error.

use vstd::prelude::*;

use crate::AppError;
use crate::clock::ClockTime;
use crate::geometry::spec_layout;
use crate::pacer::FramePacer;
use crate::render::{DrawCmd, EndDrawStatus, spec_scene_cmds};
use crate::scene::{Scene, Surface};

verus! {

/// Everything one window owns: the surface as last reported by the host,
/// the scene with its resource state machine, and the frame pacer.
#[derive(Clone, Copy, Debug)]
pub struct WindowContext {
    pub surface: Option<Surface>,
    pub scene: Scene,
    pub pacer: FramePacer,
}

impl WindowContext {
    /// The context's invariant: the scene is well formed, and the scene can
    /// only be destroyed by the destroy notification, which also stops the
    /// pacer.
    pub open spec fn wf(self) -> bool {
        &&& self.scene.wf()
        &&& (self.scene.state is Destroyed ==> self.pacer.destroyed)
    }

    /// A fresh context: no surface yet, an empty scene, an idle pacer.
    pub fn new() -> (ctx: WindowContext)
        ensures
            ctx.wf(),
            ctx.surface is None,
            ctx.scene == Scene::spec_initial(),
            ctx.pacer == (FramePacer {
                timer_armed: false,
                pending_redraw: false,
                destroyed: false,
            }),
    {
        WindowContext { surface: None, scene: Scene::initial(), pacer: FramePacer::new() }
    }

    /// The create notification: the window exists and its surface is known.
    /// Resources are not created here; the first paint creates them at the
    /// right size.
    pub fn on_create(&mut self, surface: Surface)
        requires
            old(self).wf(),
        ensures
            final (self).wf(),
            *final (self) == (WindowContext { surface: Some(surface), ..*old(self) }),
    {
        self.surface = Some(surface);
    }

    /// Records the host's attempt to create and arm the periodic wake
    /// source, made once per window at creation. Failure degrades the
    /// animation to event-driven redraws and is reported as `WakeSource`.
    pub fn initialize_timer(&mut self, created: bool, armed: bool) -> (r: Result<(), AppError>)
        requires
            old(self).wf(),
        ensures
            final (self).wf(),
            final (self).scene == old(self).scene,
            final (self).surface == old(self).surface,
            *final (self) == (WindowContext {
                pacer: FramePacer {
                    timer_armed: created && armed && !old(self).pacer.destroyed,
                    ..old(self).pacer
                },
                ..*old(self)
            }),
            r is Ok <==> (created && armed),
            r is Err ==> r == Err::<(), AppError>(AppError::WakeSource),
    {
        self.pacer.arm(created, armed)
    }

    /// The wake of the multi-source wait: when the periodic source fired,
    /// the surface is marked dirty so the next paint dispatch redraws once,
    /// however many firings pile up first. Returns whether the host should
    /// invalidate the surface. Drawing never happens here.
    pub fn on_timer_wake(&mut self, woke_by_timer: bool) -> (invalidate: bool)
        requires
            old(self).wf(),
        ensures
            final (self).wf(),
            final (self).scene == old(self).scene,
            final (self).surface == old(self).surface,
            woke_by_timer ==> final (self).pacer == old(self).pacer.spec_mark_dirty(),
            !woke_by_timer ==> final (self).pacer == old(self).pacer,
            invalidate == (woke_by_timer && !old(self).pacer.destroyed),
    {
        if woke_by_timer {
            self.pacer.mark_dirty()
        } else {
            false
        }
    }

    /// The paint notification: consumes the pending redraw, makes sure the
    /// dependent resource tier exists, and produces the frame's draw
    /// commands.
    ///
    /// With no surface the window is in a state the destroy flow never
    /// produces: that is `FatalHost` and the host should terminate. A
    /// creation failure skips the frame and is retried on the next paint.
    pub fn on_paint(&mut self, time: ClockTime) -> (r: Result<Vec<DrawCmd>, AppError>)
        requires
            old(self).wf(),
            !old(self).pacer.destroyed,
            time.wf(),
        ensures
            final (self).wf(),
            final (self).surface == old(self).surface,
            old(self).surface is None ==> *final (self) == *old(self) && r == Err::<
                Vec<DrawCmd>,
                AppError,
            >(AppError::FatalHost),
            old(self).surface matches Some(s) ==> {
                &&& final (self).pacer == old(self).pacer.spec_take_redraw().1
                &&& final (self).scene == old(self).scene.spec_ensure_resources(s).0
                &&& (r is Ok <==> old(self).scene.spec_ensure_resources(s).1 is Ok)
                &&& (r matches Ok(cmds) ==> cmds@ == spec_scene_cmds(
                    final (self).scene.layout,
                    time,
                ))
                &&& (r matches Err(e) ==> Err::<(), AppError>(e) == old(
                    self,
                ).scene.spec_ensure_resources(s).1)
            },
    {
        let surface = match self.surface {
            Some(s) => s,
            None => {
                return Err(AppError::FatalHost);
            },
        };
        self.pacer.take_redraw();
        self.scene.render(surface, time)
    }

    /// The report that ends the draw session the last paint opened. Device
    /// loss drops the dependent tier for rebuilding on the next paint; any
    /// other failure only loses the frame.
    pub fn finish_frame(&mut self, status: EndDrawStatus) -> (r: Result<(), AppError>)
        requires
            old(self).wf(),
        ensures
            final (self).wf(),
            final (self).surface == old(self).surface,
            final (self).pacer == old(self).pacer,
            status is Completed ==> final (self).scene == old(self).scene && r == Ok::<
                (),
                AppError,
            >(()),
            status is RecreateTarget ==> final (self).scene == old(self).scene.spec_device_lost()
                && r == Err::<(), AppError>(AppError::DeviceLost),
            status is Failed ==> final (self).scene == old(self).scene && r == Err::<
                (),
                AppError,
            >(AppError::DrawFailed),
    {
        self.scene.finish_frame(status)
    }

    /// The resize notification: the surface's client area changed. An
    /// existing render target is resized in place (same identity, brushes
    /// untouched) and the layout recomputed; without one, the next paint
    /// creates everything at the new size. Returns whether the host should
    /// invalidate the surface.
    pub fn resize(&mut self, new_width: u32, new_height: u32) -> (invalidate: bool)
        requires
            old(self).wf(),
        ensures
            final (self).wf(),
            invalidate ==> final (self).pacer == old(self).pacer.spec_mark_dirty(),
            !invalidate ==> final (self).pacer == old(self).pacer,
            old(self).surface matches Some(s) ==> final (self).surface == Some(
                Surface { width: new_width, height: new_height, ..s },
            ),
            old(self).surface is None ==> final (self).surface is None,
            final (self).scene == old(self).scene.spec_resize(new_width, new_height).0,
            final (self).scene.target_id() == old(self).scene.target_id(),
            final (self).scene.fill_brush == old(self).scene.fill_brush,
            final (self).scene.stroke_brush == old(self).scene.stroke_brush,
            invalidate == (old(self).scene.render_target is Some),
    {
        match self.surface {
            Some(s) => {
                self.surface = Some(
                    Surface { handle_valid: s.handle_valid, width: new_width, height: new_height },
                );
            },
            None => {},
        }
        let redraw = self.scene.resize(new_width, new_height);
        if redraw {
            self.pacer.mark_dirty();
        }
        redraw
    }

    /// Recomputes the layout from the current render target's size, as after
    /// an in-place change of the target. A no-op without a target: geometry
    /// is never derived before a target with a known size exists.
    pub fn calculate_layout(&mut self)
        requires
            old(self).wf(),
        ensures
            final (self).wf(),
            *final (self) == (WindowContext {
                scene: Scene {
                    layout: match old(self).scene.render_target {
                        Some(t) => spec_layout(t.width, t.height),
                        None => old(self).scene.layout,
                    },
                    ..old(self).scene
                },
                ..*old(self)
            }),
    {
        self.scene.calculate_layout();
    }

    /// Drops the device-dependent resources so the next paint rebuilds them:
    /// the explicit recovery step after a device loss.
    pub fn discard_graphics_resources(&mut self)
        requires
            old(self).wf(),
        ensures
            final (self).wf(),
            *final (self) == (WindowContext {
                scene: old(self).scene.spec_device_lost(),
                ..*old(self)
            }),
    {
        self.scene.discard_device_dependent_resources();
    }

    /// The destroy notification: the wake source is released, every
    /// resource is dropped, and no drawing happens afterwards. Idempotent.
    pub fn on_destroy(&mut self)
        requires
            old(self).wf(),
        ensures
            final (self).wf(),
            final (self).surface == old(self).surface,
            final (self).scene == old(self).scene.spec_teardown(),
            final (self).pacer == (FramePacer {
                timer_armed: false,
                pending_redraw: false,
                destroyed: true,
            }),
    {
        self.pacer.on_destroy();
        self.scene.cleanup();
    }
}

/// The per-window state object the host owns: created alongside the window,
/// handed by reference to every notification entry point.
#[derive(Clone, Copy, Debug)]
pub struct WindowState {
    pub context: WindowContext,
}

impl WindowState {
    /// Fresh state for a window about to be created.
    pub fn new() -> (w: WindowState)
        ensures
            w.context.wf(),
            w.context.surface is None,
            w.context.scene == Scene::spec_initial(),
    {
        WindowState { context: WindowContext::new() }
    }
}

} // verus!
