//! Clock-face geometry, derived from the render-target size.
//!
//! All coordinates are in whole pixels. The face is a circle centered in the
//! target; the unrotated tick anchors sit on the vertical axis above the
//! center and are rotated into place when the scene is drawn.

use vstd::prelude::*;

verus! {

/// A point on the drawing surface, in pixels.
#[derive(Clone, Copy, Debug, PartialEq, Eq, Structural)]
pub struct Point {
    pub x: u32,
    pub y: u32,
}

/// The clock face: a circle given by its center and radius.
#[derive(Clone, Copy, Debug, PartialEq, Eq, Structural)]
pub struct Ellipse {
    pub center_x: u32,
    pub center_y: u32,
    pub radius: u32,
}

impl Ellipse {
    /// The circle fits inside the quadrant spanned by its center, so every
    /// point derived by moving up to one radius towards an edge stays on the
    /// surface.
    pub open spec fn wf(self) -> bool {
        self.radius <= self.center_x && self.radius <= self.center_y
    }
}

/// Geometry derived from the current render-target size: the face ellipse and
/// the unrotated anchor points of a tick mark.
#[derive(Clone, Copy, Debug, PartialEq, Eq, Structural)]
pub struct Layout {
    pub ellipse: Ellipse,
    /// Inner end of a tick mark, before rotation: nine tenths of the radius
    /// above the center.
    pub tick_inner: Point,
    /// Outer end of a tick mark, before rotation: one radius above the center.
    pub tick_outer: Point,
}

/// The smaller of two values.
pub open spec fn min_u32(a: u32, b: u32) -> u32 {
    if a <= b {
        a
    } else {
        b
    }
}

/// The layout that a target of the given size yields.
pub open spec fn spec_layout(width: u32, height: u32) -> Layout {
    let cx = width / 2;
    let cy = height / 2;
    let r = min_u32(cx, cy);
    Layout {
        ellipse: Ellipse { center_x: cx, center_y: cy, radius: r },
        tick_inner: Point { x: cx, y: (cy - r * 9 / 10) as u32 },
        tick_outer: Point { x: cx, y: (cy - r) as u32 },
    }
}

impl Layout {
    pub open spec fn wf(self) -> bool {
        &&& self.ellipse.wf()
        &&& self.tick_inner.x == self.ellipse.center_x
        &&& self.tick_outer.x == self.ellipse.center_x
        &&& self.tick_inner.y == self.ellipse.center_y - self.ellipse.radius * 9 / 10
        &&& self.tick_outer.y == self.ellipse.center_y - self.ellipse.radius
    }
}

/// Every derivable layout is well formed: the radius never exceeds either
/// center coordinate, so the tick anchors stay on the surface.
pub proof fn lemma_spec_layout_wf(width: u32, height: u32)
    ensures
        spec_layout(width, height).wf(),
{
    let cy = height as int / 2;
    let r = spec_layout(width, height).ellipse.radius as int;
    assert(r * 9 / 10 <= r) by (nonlinear_arith)
        requires
            r >= 0,
    ;
}

/// Recomputes the clock-face layout for a target of the given size.
///
/// The center is the midpoint of the target and the radius is half the
/// smaller dimension, so the face is the largest circle that fits. A
/// degenerate target (zero width or height) yields a zero radius rather than
/// a failure.
pub fn recompute_layout(width: u32, height: u32) -> (layout: Layout)
    ensures
        layout == spec_layout(width, height),
        layout.wf(),
        layout.ellipse.center_x == width / 2,
        layout.ellipse.center_y == height / 2,
        layout.ellipse.radius == min_u32(width, height) / 2,
        width == 0 || height == 0 ==> layout.ellipse.radius == 0,
{
    let cx: u32 = width / 2;
    let cy: u32 = height / 2;
    let r: u32 = if cx <= cy {
        cx
    } else {
        cy
    };
    proof {
        lemma_spec_layout_wf(width, height);
        assert(min_u32(width, height) / 2 == min_u32(width / 2, height / 2));
    }
    let scaled: u64 = (r as u64) * 9 / 10;
    let inner_y: u32 = cy - (scaled as u32);
    let outer_y: u32 = cy - r;
    Layout {
        ellipse: Ellipse { center_x: cx, center_y: cy, radius: r },
        tick_inner: Point { x: cx, y: inner_y },
        tick_outer: Point { x: cx, y: outer_y },
    }
}

} // verus!
