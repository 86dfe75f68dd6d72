//! Window-space geometry: client-area dimensions and half-open rectangular
//! regions, with the clipping arithmetic the presenter relies on.
//!
//! All coordinates are non-negative `usize` values; the process boundary
//! clamps the platform's signed coordinates before they reach this crate.

use vstd::prelude::*;

verus! {

/// Width and height of a window's client area.
#[derive(Clone, Copy, PartialEq, Eq, Structural, Debug)]
pub struct Dimension {
    pub width: usize,
    pub height: usize,
}

/// A half-open axis-aligned rectangle: the points (x, y) with
/// `left <= x < right` and `top <= y < bottom`.
#[derive(Clone, Copy, PartialEq, Eq, Structural, Debug)]
pub struct Region {
    pub left: usize,
    pub top: usize,
    pub right: usize,
    pub bottom: usize,
}

impl Region {
    /// Whether the point (x, y) lies inside the region.
    pub open spec fn spec_contains(self, x: int, y: int) -> bool {
        self.left <= x < self.right && self.top <= y < self.bottom
    }

    /// A region with no points.
    pub open spec fn spec_is_empty(self) -> bool {
        self.right <= self.left || self.bottom <= self.top
    }

    /// Whether the region has no points.
    pub fn is_empty(&self) -> (r: bool)
        ensures
            r == self.spec_is_empty(),
    {
        self.right <= self.left || self.bottom <= self.top
    }
}

/// The region covering a whole client area: origin at (0, 0), extent `dim`.
pub open spec fn spec_full_region(dim: Dimension) -> Region {
    Region { left: 0, top: 0, right: dim.width, bottom: dim.height }
}

/// The region covering a whole client area.
pub fn full_region(dim: &Dimension) -> (r: Region)
    ensures
        r == spec_full_region(*dim),
{
    Region { left: 0, top: 0, right: dim.width, bottom: dim.height }
}

/// The intersection of two regions, clamped field-wise.
pub open spec fn spec_intersect(a: Region, b: Region) -> Region {
    Region {
        left: if a.left >= b.left { a.left } else { b.left },
        top: if a.top >= b.top { a.top } else { b.top },
        right: if a.right <= b.right { a.right } else { b.right },
        bottom: if a.bottom <= b.bottom { a.bottom } else { b.bottom },
    }
}

/// Intersect two regions. The result contains exactly the points that lie
/// in both inputs.
pub fn intersect(a: &Region, b: &Region) -> (r: Region)
    ensures
        r == spec_intersect(*a, *b),
        forall|x: int, y: int|
            r.spec_contains(x, y) <==> a.spec_contains(x, y) && b.spec_contains(x, y),
{
    Region {
        left: if a.left >= b.left { a.left } else { b.left },
        top: if a.top >= b.top { a.top } else { b.top },
        right: if a.right <= b.right { a.right } else { b.right },
        bottom: if a.bottom <= b.bottom { a.bottom } else { b.bottom },
    }
}

/// The width and height spanned by a region.
pub fn dimension_of(r: &Region) -> (d: Dimension)
    requires
        r.left <= r.right,
        r.top <= r.bottom,
    ensures
        d.width == r.right - r.left,
        d.height == r.bottom - r.top,
{
    Dimension { width: r.right - r.left, height: r.bottom - r.top }
}

} // verus!
