//! The frame pacer: periodic wake-ups coalesced into single redraw requests.
//!
//! One thread owns both the native event queue and the periodic wake source.
//! Each time the wake source fires, the drawable surface is marked dirty; the
//! mark is a single bit, so any number of firings before the next paint
//! dispatch collapse into exactly one pending redraw. The paint dispatch
//! consumes the bit. When arming the wake source fails, the pacer stays
//! usable in a degraded mode: redraws then come only from paint and resize
//! events. After destroy, nothing is marked and nothing is painted.

use vstd::prelude::*;

use crate::AppError;

verus! {

/// The redraw-pacing state of one window.
#[derive(Clone, Copy, Debug, PartialEq, Eq, Structural)]
pub struct FramePacer {
    /// Whether the periodic wake source was created and armed.
    pub timer_armed: bool,
    /// The surface's dirty bit: a redraw is pending.
    pub pending_redraw: bool,
    /// The window was destroyed; no further marking or painting.
    pub destroyed: bool,
}

impl FramePacer {
    /// The transition of `mark_dirty` (and of every timer firing): set the
    /// dirty bit, unless the window is already destroyed.
    pub open spec fn spec_mark_dirty(self) -> FramePacer {
        if self.destroyed {
            self
        } else {
            FramePacer { pending_redraw: true, ..self }
        }
    }

    /// The pacer after `n` consecutive timer firings.
    pub open spec fn spec_after_fires(self, n: nat) -> FramePacer
        decreases n,
    {
        if n == 0 {
            self
        } else {
            self.spec_after_fires((n - 1) as nat).spec_mark_dirty()
        }
    }

    /// The transition of `take_redraw`: whether this paint dispatch should
    /// draw, and the pacer with the dirty bit consumed.
    pub open spec fn spec_take_redraw(self) -> (bool, FramePacer) {
        (self.pending_redraw && !self.destroyed, FramePacer { pending_redraw: false, ..self })
    }

    /// A fresh pacer: nothing armed, nothing pending.
    pub fn new() -> (p: FramePacer)
        ensures
            p == (FramePacer { timer_armed: false, pending_redraw: false, destroyed: false }),
    {
        FramePacer { timer_armed: false, pending_redraw: false, destroyed: false }
    }

    /// Records the host's attempt to create and arm the periodic wake
    /// source. Failure is not fatal: the pacer degrades to event-driven
    /// redraws and reports `WakeSource` so the host can log it.
    pub fn arm(&mut self, created: bool, armed: bool) -> (r: Result<(), AppError>)
        ensures
            *final (self) == (FramePacer {
                timer_armed: created && armed && !old(self).destroyed,
                ..*old(self)
            }),
            r is Ok <==> (created && armed),
            r is Err ==> r == Err::<(), AppError>(AppError::WakeSource),
    {
        if created && armed && !self.destroyed {
            self.timer_armed = true;
            Ok(())
        } else {
            self.timer_armed = false;
            if created && armed {
                Ok(())
            } else {
                Err(AppError::WakeSource)
            }
        }
    }

    /// Marks the surface dirty: called once for each timer firing, and for
    /// every other cause that wants a redraw. Returns whether the host
    /// should invalidate the surface.
    pub fn mark_dirty(&mut self) -> (invalidate: bool)
        ensures
            *final (self) == old(self).spec_mark_dirty(),
            invalidate == !old(self).destroyed,
    {
        if self.destroyed {
            false
        } else {
            self.pending_redraw = true;
            true
        }
    }

    /// Consumes the dirty bit at the start of a paint dispatch: returns
    /// whether this paint answers a pending redraw request.
    pub fn take_redraw(&mut self) -> (paint: bool)
        ensures
            (paint, *final (self)) == old(self).spec_take_redraw(),
    {
        let paint = self.pending_redraw && !self.destroyed;
        self.pending_redraw = false;
        paint
    }

    /// Tears the pacer down on the destroy notification: the wake source is
    /// released and no redraw survives.
    pub fn on_destroy(&mut self)
        ensures
            *final (self) == (FramePacer {
                timer_armed: false,
                pending_redraw: false,
                destroyed: true,
            }),
    {
        self.timer_armed = false;
        self.pending_redraw = false;
        self.destroyed = true;
    }
}

/// Redraw coalescing: any number of consecutive timer firings before a paint
/// leaves the pacer exactly as a single firing does — one pending redraw,
/// not `n`.
pub proof fn lemma_redraw_coalescing(p: FramePacer, n: nat)
    requires
        n >= 1,
    ensures
        p.spec_after_fires(n) == p.spec_mark_dirty(),
    decreases n,
{
    if n == 1 {
        assert(p.spec_after_fires(1nat) == p.spec_after_fires(0nat).spec_mark_dirty());
        assert(p.spec_after_fires(0nat) == p);
    } else {
        lemma_redraw_coalescing(p, (n - 1) as nat);
        assert(p.spec_after_fires(n) == p.spec_mark_dirty().spec_mark_dirty());
        assert(p.spec_mark_dirty().spec_mark_dirty() == p.spec_mark_dirty());
    }
}

/// After destroy, late timer firings change nothing, and no paint is owed:
/// drawing cannot happen once the destroy notification is processed.
pub proof fn lemma_no_redraw_after_destroy(p: FramePacer, n: nat)
    requires
        p.destroyed,
    ensures
        p.spec_after_fires(n) == p,
        !p.spec_take_redraw().0,
    decreases n,
{
    if n > 0 {
        lemma_no_redraw_after_destroy(p, (n - 1) as nat);
    }
}

/// A burst of timer firings produces exactly one paint: the next paint
/// dispatch draws, and the one after it (with no firing in between) does
/// not.
pub proof fn lemma_one_paint_per_burst(p: FramePacer, n: nat)
    requires
        n >= 1,
        !p.destroyed,
    ensures
        p.spec_after_fires(n).spec_take_redraw().0,
        !p.spec_after_fires(n).spec_take_redraw().1.spec_take_redraw().0,
{
    lemma_redraw_coalescing(p, n);
}

} // verus!
