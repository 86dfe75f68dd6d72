//! The presenter: turns "show this surface in that part of the window" into
//! an explicit presentation request for the process boundary to carry out.
//! Presentation is best-effort per frame; a zero-sized surface presents
//! nothing, and a direct-region blit is clipped to the surface's extent.

use vstd::prelude::*;
use crate::geometry::Region;
use crate::geometry::intersect;
use crate::geometry::spec_intersect;
use crate::surface::PixelSurface;

verus! {

/// How a surface reaches the window's drawable area.
#[derive(Clone, Copy, PartialEq, Eq, Structural, Debug)]
pub enum PresentPolicy {
    /// Scale the whole surface to the target region (platform scaling).
    StretchToFit,
    /// Copy at 1:1 scale the part of the surface overlapping the target.
    DirectRegion,
}

/// One presentation of a surface: which surface size, where in the window,
/// and under which policy. The process boundary executes these.
#[derive(Clone, Copy, PartialEq, Eq, Structural, Debug)]
pub struct PresentRequest {
    pub policy: PresentPolicy,
    pub surface_width: usize,
    pub surface_height: usize,
    pub dest: Region,
}

/// The region a `width` by `height` surface covers: origin (0, 0).
pub open spec fn spec_surface_extent(width: usize, height: usize) -> Region {
    Region { left: 0, top: 0, right: width, bottom: height }
}

/// The presentation owed for a surface of the given size, a target region
/// and a policy. `None` exactly when there is nothing to present: the
/// surface has no pixels, or a direct-region blit's target misses the
/// surface entirely. A stretch-to-fit presentation keeps the target as
/// handed in; a direct-region one clips the target to the surface extent.
pub open spec fn present_spec(
    width: usize,
    height: usize,
    target: Region,
    policy: PresentPolicy,
) -> Option<PresentRequest> {
    if width == 0 || height == 0 {
        None
    } else {
        match policy {
            PresentPolicy::StretchToFit => Some(
                PresentRequest {
                    policy: PresentPolicy::StretchToFit,
                    surface_width: width,
                    surface_height: height,
                    dest: target,
                },
            ),
            PresentPolicy::DirectRegion => {
                let clipped = spec_intersect(target, spec_surface_extent(width, height));
                if clipped.spec_is_empty() {
                    None
                } else {
                    Some(
                        PresentRequest {
                            policy: PresentPolicy::DirectRegion,
                            surface_width: width,
                            surface_height: height,
                            dest: clipped,
                        },
                    )
                }
            },
        }
    }
}

/// Build the presentation request for this surface, target and policy, or
/// `None` when there is nothing to present.
pub fn present(surface: &PixelSurface, target: &Region, policy: PresentPolicy) -> (r: Option<
    PresentRequest,
>)
    ensures
        r == present_spec(surface.width, surface.height, *target, policy),
{
    if surface.width == 0 || surface.height == 0 {
        return None;
    }
    match policy {
        PresentPolicy::StretchToFit => Some(
            PresentRequest {
                policy: PresentPolicy::StretchToFit,
                surface_width: surface.width,
                surface_height: surface.height,
                dest: *target,
            },
        ),
        PresentPolicy::DirectRegion => {
            let extent = Region {
                left: 0,
                top: 0,
                right: surface.width,
                bottom: surface.height,
            };
            let clipped = intersect(target, &extent);
            if clipped.is_empty() {
                None
            } else {
                Some(
                    PresentRequest {
                        policy: PresentPolicy::DirectRegion,
                        surface_width: surface.width,
                        surface_height: surface.height,
                        dest: clipped,
                    },
                )
            }
        },
    }
}

} // verus!
