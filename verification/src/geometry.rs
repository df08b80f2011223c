//! Axis-aligned boxes relative to a fighter, and their world-space form.
use crate::fixed::{add_raw, sub_raw, Fixed, Vec2};
use vstd::prelude::*;

verus! {

/// Axis-aligned rectangle, offset relative to a fighter's origin (feet,
/// facing-forward-positive x). `y` grows upward from the floor.
#[derive(Debug, Clone, Copy, PartialEq, Eq, Structural)]
pub struct Rect {
    pub x: Fixed,
    pub y: Fixed,
    pub w: Fixed,
    pub h: Fixed,
}

/// An axis-aligned rectangle in world coordinates, `[x0, x1) x [y0, y1)`.
#[derive(Debug, Clone, Copy, PartialEq, Eq, Structural)]
pub struct WorldRect {
    pub x0: Fixed,
    pub y0: Fixed,
    pub x1: Fixed,
    pub y1: Fixed,
}

/// World-space placement of `r` for a fighter standing at `origin`; a
/// fighter facing left sees the x offset mirrored.
pub open spec fn spec_to_world(r: Rect, origin: Vec2, facing_right: bool) -> WorldRect {
    let x0 = if facing_right {
        add_raw(origin.x.0, r.x.0)
    } else {
        sub_raw(sub_raw(origin.x.0, r.x.0), r.w.0)
    };
    let y0 = add_raw(origin.y.0, r.y.0);
    WorldRect {
        x0: Fixed(x0),
        y0: Fixed(y0),
        x1: Fixed(add_raw(x0, r.w.0)),
        y1: Fixed(add_raw(y0, r.h.0)),
    }
}

/// Strict overlap of two world rectangles (touching edges do not overlap).
pub open spec fn spec_overlaps(a: WorldRect, b: WorldRect) -> bool {
    a.x0.0 < b.x1.0 && b.x0.0 < a.x1.0 && a.y0.0 < b.y1.0 && b.y0.0 < a.y1.0
}

impl Rect {
    /// Resolve this rectangle to world space given a fighter's origin and facing.
    pub fn to_world(self, origin: Vec2, facing_right: bool) -> (r: WorldRect)
        ensures
            r == spec_to_world(self, origin, facing_right),
    {
        let x0 = if facing_right {
            origin.x.add(self.x)
        } else {
            origin.x.sub(self.x).sub(self.w)
        };
        let y0 = origin.y.add(self.y);
        WorldRect { x0, y0, x1: x0.add(self.w), y1: y0.add(self.h) }
    }
}

impl WorldRect {
    /// Whether the two rectangles share interior area.
    pub fn overlaps(&self, other: &WorldRect) -> (r: bool)
        ensures
            r == spec_overlaps(*self, *other),
    {
        self.x0.0 < other.x1.0 && other.x0.0 < self.x1.0 && self.y0.0 < other.y1.0 && other.y0.0
            < self.y1.0
    }
}

/// Overlap is symmetric.
pub proof fn law_overlap_symmetric(a: WorldRect, b: WorldRect)
    ensures
        spec_overlaps(a, b) == spec_overlaps(b, a),
{
}

/// Facing left mirrors a rectangle about the fighter's origin: where no
/// coordinate wraps, the left-facing box is the right-facing one reflected
/// through `origin.x`, and both keep the same vertical extent.
pub proof fn law_facing_mirrors(r: Rect, origin: Vec2)
    requires
        -0x1000_0000 <= origin.x.0 <= 0x1000_0000,
        -0x1000_0000 <= origin.y.0 <= 0x1000_0000,
        -0x1000_0000 <= r.x.0 <= 0x1000_0000,
        -0x1000_0000 <= r.y.0 <= 0x1000_0000,
        0 <= r.w.0 <= 0x1000_0000,
        0 <= r.h.0 <= 0x1000_0000,
    ensures
        spec_to_world(r, origin, false).x1.0 == 2 * origin.x.0 - spec_to_world(r, origin, true).x0.0,
        spec_to_world(r, origin, false).x0.0 == 2 * origin.x.0 - spec_to_world(r, origin, true).x1.0,
        spec_to_world(r, origin, false).y0 == spec_to_world(r, origin, true).y0,
        spec_to_world(r, origin, false).y1 == spec_to_world(r, origin, true).y1,
{
}

} // verus!
