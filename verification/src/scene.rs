//! The render-resource lifecycle.
//!
//! Graphics resources come in two tiers. The factory is device independent:
//! it is created once and lives for the scene's whole life. The render target
//! and the two brushes are device dependent: they are created together,
//! lazily, on the first paint after a surface exists, and dropped together on
//! device loss, to be rebuilt on the next paint. The drawing device itself is
//! owned by the host; the scene tracks each resource as an identity (a number
//! drawn from a counter that never repeats) plus the plain values the logic
//! reads from it, so that creation, reuse and recreation are all visible in
//! the state.
//!
//! Every operation has a specification-level transition function; the
//! executable method is proved to implement it exactly, and the laws of the
//! state machine (idempotence when ready, fresh identities after device loss)
//! are proved over the transitions.

use vstd::prelude::*;

use crate::AppError;
use crate::geometry::{Layout, recompute_layout, spec_layout};

verus! {

/// Where the device-dependent resource tier stands.
#[derive(Clone, Copy, Debug, PartialEq, Eq, Structural)]
pub enum ResourceState {
    /// No target or brushes have been created yet.
    Uninitialized,
    /// Target and brushes exist and can be drawn with.
    Ready,
    /// The device was lost; target and brushes are gone until the next
    /// successful creation.
    Lost,
    /// The scene was torn down. Terminal.
    Destroyed,
}

/// The device-independent resource: created once, never invalidated.
#[derive(Clone, Copy, Debug, PartialEq, Eq, Structural)]
pub struct Factory {
    pub id: u64,
}

/// The device-dependent surface-bound resource: identity plus pixel size.
/// Resizing keeps the identity; recreation after device loss changes it.
#[derive(Clone, Copy, Debug, PartialEq, Eq, Structural)]
pub struct RenderTarget {
    pub id: u64,
    pub width: u32,
    pub height: u32,
}

/// A solid-color brush, device dependent: it shares the render target's
/// lifecycle and is identified by the same counter.
#[derive(Clone, Copy, Debug, PartialEq, Eq, Structural)]
pub struct Brush {
    pub id: u64,
}

/// What the host knows about the window surface when a notification arrives:
/// whether the handle is valid, and the pixel size of the client area.
#[derive(Clone, Copy, Debug, PartialEq, Eq, Structural)]
pub struct Surface {
    pub handle_valid: bool,
    pub width: u32,
    pub height: u32,
}

/// The scene: the resource state machine and the geometry derived from the
/// current target size.
#[derive(Clone, Copy, Debug)]
pub struct Scene {
    pub state: ResourceState,
    pub factory: Factory,
    pub render_target: Option<RenderTarget>,
    pub fill_brush: Option<Brush>,
    pub stroke_brush: Option<Brush>,
    pub layout: Layout,
    /// Source of resource identities; strictly above every identity handed
    /// out so far.
    pub next_resource_id: u64,
}

impl Scene {
    /// The identity of the current render target (zero when absent; only
    /// meaningful in the `Ready` state).
    pub open spec fn target_id(self) -> u64 {
        match self.render_target {
            Some(t) => t.id,
            None => 0,
        }
    }

    /// The identity of the current fill brush (zero when absent).
    pub open spec fn fill_brush_id(self) -> u64 {
        match self.fill_brush {
            Some(b) => b.id,
            None => 0,
        }
    }

    /// The identity of the current stroke brush (zero when absent).
    pub open spec fn stroke_brush_id(self) -> u64 {
        match self.stroke_brush {
            Some(b) => b.id,
            None => 0,
        }
    }

    /// The all-or-nothing invariant of the dependent tier: target and brushes
    /// are present exactly in the `Ready` state, their identities are fresh
    /// with respect to the counter and pairwise distinct, and the layout
    /// matches the target's size whenever a target exists.
    pub open spec fn wf(self) -> bool {
        &&& self.layout.wf()
        &&& (self.state is Ready <==> self.render_target is Some)
        &&& (self.state is Ready <==> self.fill_brush is Some)
        &&& (self.state is Ready <==> self.stroke_brush is Some)
        &&& self.factory.id < self.next_resource_id
        &&& (self.render_target matches Some(t) ==> {
            &&& t.id < self.next_resource_id
            &&& self.layout == spec_layout(t.width, t.height)
        })
        &&& (self.fill_brush matches Some(b) ==> b.id < self.next_resource_id)
        &&& (self.stroke_brush matches Some(b) ==> b.id < self.next_resource_id)
        &&& (self.state is Ready ==> {
            &&& self.target_id() != self.fill_brush_id()
            &&& self.target_id() != self.stroke_brush_id()
            &&& self.fill_brush_id() != self.stroke_brush_id()
        })
    }

    /// The scene as `new` builds it: factory present, dependent tier absent.
    pub open spec fn spec_initial() -> Scene {
        Scene {
            state: ResourceState::Uninitialized,
            factory: Factory { id: 0 },
            render_target: None,
            fill_brush: None,
            stroke_brush: None,
            layout: spec_layout(0, 0),
            next_resource_id: 1,
        }
    }

    /// Whether creating the dependent tier succeeds: the surface handle must
    /// be valid, and the identity counter must have room for a target and two
    /// brushes.
    pub open spec fn spec_can_create(self, surface: Surface) -> bool {
        surface.handle_valid && self.next_resource_id + 3 <= u64::MAX
    }

    /// The scene after the dependent tier is created against `surface`:
    /// a fresh target sized to the surface, two fresh brushes, and the layout
    /// recomputed for that size.
    pub open spec fn spec_created(self, surface: Surface) -> Scene {
        Scene {
            state: ResourceState::Ready,
            render_target: Some(
                RenderTarget {
                    id: self.next_resource_id,
                    width: surface.width,
                    height: surface.height,
                },
            ),
            fill_brush: Some(Brush { id: (self.next_resource_id + 1) as u64 }),
            stroke_brush: Some(Brush { id: (self.next_resource_id + 2) as u64 }),
            layout: spec_layout(surface.width, surface.height),
            next_resource_id: (self.next_resource_id + 3) as u64,
            ..self
        }
    }

    /// The transition of `create_graphics_resources`: nothing when already
    /// `Ready`; otherwise either the creation above, or a creation error with
    /// the scene untouched.
    pub open spec fn spec_ensure_resources(self, surface: Surface) -> (Scene, Result<
        (),
        AppError,
    >) {
        if self.state is Ready {
            (self, Ok(()))
        } else if self.spec_can_create(surface) {
            (self.spec_created(surface), Ok(()))
        } else {
            (self, Err(AppError::ResourceCreation))
        }
    }

    /// The transition of `discard_device_dependent_resources`: from `Ready`,
    /// drop the whole dependent tier and record the loss; in any other state
    /// there is nothing to drop.
    pub open spec fn spec_device_lost(self) -> Scene {
        if self.state is Ready {
            Scene {
                state: ResourceState::Lost,
                render_target: None,
                fill_brush: None,
                stroke_brush: None,
                ..self
            }
        } else {
            self
        }
    }

    /// The transition of `resize`: while `Ready`, the target keeps its
    /// identity but takes the new pixel size and the layout is recomputed;
    /// otherwise nothing changes (the next paint creates the target at the
    /// right size). The boolean says whether a redraw should be requested.
    pub open spec fn spec_resize(self, new_width: u32, new_height: u32) -> (Scene, bool) {
        match self.render_target {
            Some(t) => (
                Scene {
                    render_target: Some(
                        RenderTarget { id: t.id, width: new_width, height: new_height },
                    ),
                    layout: spec_layout(new_width, new_height),
                    ..self
                },
                true,
            ),
            None => (self, false),
        }
    }

    /// The transition of `cleanup`: everything dependent is released and the
    /// scene is `Destroyed`, whatever came before.
    pub open spec fn spec_teardown(self) -> Scene {
        Scene {
            state: ResourceState::Destroyed,
            render_target: None,
            fill_brush: None,
            stroke_brush: None,
            ..self
        }
    }

    /// The initial scene: the device-independent factory and nothing else.
    pub fn initial() -> (s: Scene)
        ensures
            s == Scene::spec_initial(),
            s.wf(),
    {
        Scene {
            state: ResourceState::Uninitialized,
            factory: Factory { id: 0 },
            render_target: None,
            fill_brush: None,
            stroke_brush: None,
            layout: recompute_layout(0, 0),
            next_resource_id: 1,
        }
    }

    /// Creates a scene with its device-independent factory and nothing else.
    ///
    /// The result is always `Ok`: the factory is process local and its
    /// creation cannot fail here. The `Result` stays in the signature because
    /// the host treats a failed scene construction as a startup abort.
    pub fn new() -> (r: Result<Scene, AppError>)
        ensures
            r == Ok::<Scene, AppError>(Scene::spec_initial()),
            Scene::spec_initial().wf(),
    {
        Ok(Scene::initial())
    }

    /// Describes the render target that creation would bind to the surface:
    /// the next free identity, sized to the surface's client area. The real
    /// device object lives with the host; this value is its whole visible
    /// state.
    fn create_render_target(&self, surface: Surface) -> (t: RenderTarget)
        ensures
            t == (RenderTarget {
                id: self.next_resource_id,
                width: surface.width,
                height: surface.height,
            }),
    {
        RenderTarget { id: self.next_resource_id, width: surface.width, height: surface.height }
    }

    /// Creates the brushes of the dependent tier, one fill and one stroke,
    /// each with a fresh identity.
    fn create_device_dependent_resources(&mut self) -> (r: Result<(), AppError>)
        requires
            old(self).next_resource_id + 2 <= u64::MAX,
        ensures
            *final (self) == (Scene {
                fill_brush: Some(Brush { id: old(self).next_resource_id }),
                stroke_brush: Some(Brush { id: (old(self).next_resource_id + 1) as u64 }),
                next_resource_id: (old(self).next_resource_id + 2) as u64,
                ..*old(self)
            }),
            r == Ok::<(), AppError>(()),
    {
        let id = self.next_resource_id;
        self.fill_brush = Some(Brush { id });
        self.stroke_brush = Some(Brush { id: id + 1 });
        self.next_resource_id = id + 2;
        Ok(())
    }

    /// Recomputes the layout from the current render target's size. A no-op
    /// without a target: geometry is never derived before a target with a
    /// known size exists.
    pub fn calculate_layout(&mut self)
        ensures
            *final (self) == (Scene {
                layout: match old(self).render_target {
                    Some(t) => spec_layout(t.width, t.height),
                    None => old(self).layout,
                },
                ..*old(self)
            }),
    {
        match self.render_target {
            Some(t) => {
                self.layout = recompute_layout(t.width, t.height);
            },
            None => {},
        }
    }

    /// Ensures the device-dependent tier exists: a no-op when already
    /// `Ready`, otherwise creates the render target sized to the surface's
    /// client area, then the brushes, then recomputes the layout.
    ///
    /// Fails with `ResourceCreation` exactly when the surface has no valid
    /// handle (or the identity counter is exhausted); the resources then stay
    /// absent and the caller skips drawing this frame.
    pub fn create_graphics_resources(&mut self, surface: Surface) -> (r: Result<(), AppError>)
        requires
            old(self).wf(),
            !(old(self).state is Destroyed),
        ensures
            final (self).wf(),
            (*final (self), r) == old(self).spec_ensure_resources(surface),
            r is Ok <==> (old(self).state is Ready || old(self).spec_can_create(surface)),
    {
        match self.state {
            ResourceState::Ready => Ok(()),
            _ => {
                if surface.handle_valid && self.next_resource_id <= u64::MAX - 3 {
                    let target = self.create_render_target(surface);
                    self.render_target = Some(target);
                    self.next_resource_id = self.next_resource_id + 1;
                    let created = self.create_device_dependent_resources();
                    self.state = ResourceState::Ready;
                    self.calculate_layout();
                    proof {
                        assert(*self == old(self).spec_created(surface));
                    }
                    created
                } else {
                    Err(AppError::ResourceCreation)
                }
            },
        }
    }

    /// Drops the whole device-dependent tier after a device loss; the next
    /// `create_graphics_resources` call rebuilds it from scratch.
    pub fn discard_device_dependent_resources(&mut self)
        requires
            old(self).wf(),
        ensures
            final (self).wf(),
            *final (self) == old(self).spec_device_lost(),
    {
        if matches!(self.state, ResourceState::Ready) {
            self.render_target = None;
            self.fill_brush = None;
            self.stroke_brush = None;
            self.state = ResourceState::Lost;
        }
    }

    /// Resizes the render target in place: same identity, new pixel size, no
    /// brush recreation, layout recomputed. A no-op when no target exists.
    /// Returns whether the host should request a redraw.
    pub fn resize(&mut self, new_width: u32, new_height: u32) -> (redraw: bool)
        requires
            old(self).wf(),
        ensures
            final (self).wf(),
            (*final (self), redraw) == old(self).spec_resize(new_width, new_height),
            final (self).target_id() == old(self).target_id(),
            final (self).fill_brush == old(self).fill_brush,
            final (self).stroke_brush == old(self).stroke_brush,
            redraw <==> old(self).render_target is Some,
    {
        match self.render_target {
            Some(t) => {
                self.render_target = Some(
                    RenderTarget { id: t.id, width: new_width, height: new_height },
                );
                self.calculate_layout();
                true
            },
            None => false,
        }
    }

    /// Releases every resource and makes the scene `Destroyed`. Idempotent.
    pub fn cleanup(&mut self)
        requires
            old(self).wf(),
        ensures
            final (self).wf(),
            *final (self) == old(self).spec_teardown(),
    {
        self.render_target = None;
        self.fill_brush = None;
        self.stroke_brush = None;
        self.state = ResourceState::Destroyed;
    }
}

/// Ensuring resources while already `Ready` changes nothing and reallocates
/// nothing: the operation is idempotent in that state.
pub proof fn lemma_ensure_resources_idempotent(s: Scene, surface: Surface)
    requires
        s.state is Ready,
    ensures
        s.spec_ensure_resources(surface) == (s, Ok::<(), AppError>(())),
{
}

/// Tearing down is idempotent: a second teardown leaves the destroyed scene
/// exactly as it was.
pub proof fn lemma_teardown_idempotent(s: Scene)
    ensures
        s.spec_teardown().spec_teardown() == s.spec_teardown(),
{
}

/// After a device loss, the next successful resource creation hands out a
/// render target and brushes whose identities differ from every identity the
/// lost tier had: the rebuild is a genuine recreation, not a reuse.
pub proof fn lemma_rebuild_after_loss_is_fresh(s: Scene, surface: Surface)
    requires
        s.wf(),
        s.state is Ready,
        s.spec_device_lost().spec_can_create(surface),
    ensures
        ({
            let rebuilt = s.spec_device_lost().spec_ensure_resources(surface).0;
            &&& s.spec_device_lost().spec_ensure_resources(surface).1 == Ok::<(), AppError>(())
            &&& rebuilt.state is Ready
            &&& rebuilt.target_id() != s.target_id()
            &&& rebuilt.fill_brush_id() != s.fill_brush_id()
            &&& rebuilt.stroke_brush_id() != s.stroke_brush_id()
        }),
{
}

} // verus!
