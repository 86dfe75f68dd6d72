//! The window procedure: an explicit dispatch over one window-system
//! notification, mutating the rendering context it is handed. A resize
//! reallocates the surface and repaints it at a fixed reference offset, so
//! the buffer is never presented uninitialized; destroy and close request a
//! process-level quit; a paint notification yields a direct-region
//! presentation request; anything else passes through.

use vstd::prelude::*;
use crate::context::CtxView;
use crate::context::RenderContext;
use crate::context::SurfaceView;
use crate::events::EventOutcome;
use crate::events::WindowEvent;
use crate::events::outcome_of;
use crate::gradient::generate;
use crate::gradient::gradient_bytes;
use crate::present::PresentPolicy;
use crate::present::PresentRequest;
use crate::present::present;
use crate::present::present_spec;
use crate::surface::size_representable;

verus! {

/// The fixed scroll offsets a resize repaints the surface with.
pub const REFERENCE_X_OFFSET: u32 = 128;

pub const REFERENCE_Y_OFFSET: u32 = 0;

/// What the window procedure answers for one notification: the
/// handled/passthrough marker and at most one presentation request.
#[derive(Clone, Copy, PartialEq, Eq, Structural, Debug)]
pub struct EventResponse {
    pub outcome: EventOutcome,
    pub present: Option<PresentRequest>,
}

/// The surface a resize to `width` by `height` leaves behind: the gradient
/// at the reference offsets when the size is committable, the empty surface
/// when allocation must fail.
pub open spec fn sized_surface(width: usize, height: usize) -> SurfaceView {
    if size_representable(width, height) {
        SurfaceView {
            width,
            height,
            bytes: gradient_bytes(
                width as nat,
                height as nat,
                REFERENCE_X_OFFSET as int,
                REFERENCE_Y_OFFSET as int,
            ),
        }
    } else {
        SurfaceView { width: 0, height: 0, bytes: Seq::empty() }
    }
}

/// The context one notification leaves behind: destroy and close set the
/// quit flag, a size notification replaces the surface, everything else
/// changes nothing. A resize deliberately preserves the scroll offsets:
/// the animation continues where it was, only the canvas changes.
pub open spec fn step_event(v: CtxView, event: WindowEvent) -> CtxView {
    match event {
        WindowEvent::Destroy => CtxView {
            surface: v.surface,
            quit: true,
            x_offset: v.x_offset,
            y_offset: v.y_offset,
            config: v.config,
        },
        WindowEvent::Close => CtxView {
            surface: v.surface,
            quit: true,
            x_offset: v.x_offset,
            y_offset: v.y_offset,
            config: v.config,
        },
        WindowEvent::Size { width, height } => CtxView {
            surface: sized_surface(width, height),
            quit: v.quit,
            x_offset: v.x_offset,
            y_offset: v.y_offset,
            config: v.config,
        },
        WindowEvent::ActivateApp => v,
        WindowEvent::Paint { .. } => v,
        WindowEvent::Other { .. } => v,
    }
}

/// The presentation request one notification yields: a paint notification
/// presents the current surface into the dirty region under the
/// direct-region policy; no other notification presents.
pub open spec fn event_present(v: CtxView, event: WindowEvent) -> Option<PresentRequest> {
    match event {
        WindowEvent::Paint { region } => present_spec(
            v.surface.width,
            v.surface.height,
            region,
            PresentPolicy::DirectRegion,
        ),
        _ => None,
    }
}

/// Dispatch one notification against the rendering context.
pub fn handle_event(ctx: &mut RenderContext, event: &WindowEvent) -> (r: EventResponse)
    requires
        old(ctx).wf(),
    ensures
        final(ctx).wf(),
        final(ctx)@ == step_event(old(ctx)@, *event),
        r.present == event_present(old(ctx)@, *event),
        r.outcome == outcome_of(*event),
{
    match event {
        WindowEvent::Destroy => {
            ctx.quit_requested = true;
            proof {
                assert(ctx@ =~= step_event(old(ctx)@, *event));
            }
            EventResponse { outcome: EventOutcome::Handled, present: None }
        },
        WindowEvent::Close => {
            ctx.quit_requested = true;
            proof {
                assert(ctx@ =~= step_event(old(ctx)@, *event));
            }
            EventResponse { outcome: EventOutcome::Handled, present: None }
        },
        WindowEvent::Size { width, height } => {
            match ctx.surface.resize(*width, *height) {
                Ok(_) => {
                    generate(&mut ctx.surface, REFERENCE_X_OFFSET, REFERENCE_Y_OFFSET);
                },
                Err(_) => {},
            }
            proof {
                assert(ctx@ =~= step_event(old(ctx)@, *event));
            }
            EventResponse { outcome: EventOutcome::Handled, present: None }
        },
        WindowEvent::ActivateApp => {
            proof {
                assert(ctx@ =~= step_event(old(ctx)@, *event));
            }
            EventResponse { outcome: EventOutcome::Handled, present: None }
        },
        WindowEvent::Paint { region } => {
            let p = present(&ctx.surface, region, PresentPolicy::DirectRegion);
            proof {
                assert(ctx@ =~= step_event(old(ctx)@, *event));
            }
            EventResponse { outcome: EventOutcome::Handled, present: p }
        },
        WindowEvent::Other { .. } => {
            proof {
                assert(ctx@ =~= step_event(old(ctx)@, *event));
            }
            EventResponse { outcome: EventOutcome::Passthrough, present: None }
        },
    }
}

} // verus!
