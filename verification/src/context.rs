//! The process-wide rendering state, owned explicitly and passed by
//! reference: the single pixel surface, the quit flag, the two free-running
//! scroll offsets, and the loop configuration. Mathematical views of the
//! surface and of the whole context let the event pump and the main loop
//! state their effect as functions over these views.

use vstd::prelude::*;
use crate::surface::PixelSurface;

verus! {

/// Mathematical view of a pixel surface: its size and its byte content.
#[verifier::ext_equal]
pub struct SurfaceView {
    pub width: usize,
    pub height: usize,
    pub bytes: Seq<u8>,
}

impl SurfaceView {
    /// The surface invariant, on the view.
    pub open spec fn wf(self) -> bool {
        &&& self.width * 4 <= usize::MAX
        &&& self.width * self.height * 4 <= usize::MAX
        &&& self.bytes.len() == self.width * self.height * 4
    }
}

/// The view of a surface with no buffer committed.
pub open spec fn empty_surface_view() -> SurfaceView {
    SurfaceView { width: 0, height: 0, bytes: Seq::empty() }
}

/// The view a release leaves behind, whatever the surface held before:
/// always the empty surface.
pub open spec fn released_view(v: SurfaceView) -> SurfaceView {
    empty_surface_view()
}

/// Releasing is idempotent: one release and two releases in a row end at
/// the same place, the empty surface — and release is total, so neither
/// call can fail.
pub proof fn lemma_release_idempotent(v: SurfaceView)
    ensures
        released_view(released_view(v)) == released_view(v),
        released_view(v).width == 0,
        released_view(v).height == 0,
{
}

impl View for PixelSurface {
    type V = SurfaceView;

    open spec fn view(&self) -> SurfaceView {
        SurfaceView { width: self.width, height: self.height, bytes: self.buffer@ }
    }
}

/// Which scroll offsets advance at the end of a loop iteration. Both
/// advancing is the usual diagonal scroll; either may be held still.
#[derive(Clone, Copy, PartialEq, Eq, Structural, Debug)]
pub struct LoopConfig {
    pub advance_x: bool,
    pub advance_y: bool,
}

impl Default for LoopConfig {
    /// The default configuration advances both offsets by one per iteration.
    fn default() -> (c: LoopConfig)
        ensures
            c.advance_x,
            c.advance_y,
    {
        LoopConfig { advance_x: true, advance_y: true }
    }
}

/// All mutable rendering state: one writer, one thread, no globals.
pub struct RenderContext {
    pub surface: PixelSurface,
    pub quit_requested: bool,
    pub x_offset: u32,
    pub y_offset: u32,
    pub config: LoopConfig,
}

/// Mathematical view of the whole rendering context.
#[verifier::ext_equal]
pub struct CtxView {
    pub surface: SurfaceView,
    pub quit: bool,
    pub x_offset: u32,
    pub y_offset: u32,
    pub config: LoopConfig,
}

impl View for RenderContext {
    type V = CtxView;

    open spec fn view(&self) -> CtxView {
        CtxView {
            surface: self.surface@,
            quit: self.quit_requested,
            x_offset: self.x_offset,
            y_offset: self.y_offset,
            config: self.config,
        }
    }
}

/// The state a fresh context starts in: no surface, not quitting, both
/// offsets zero.
pub open spec fn initial_view(config: LoopConfig) -> CtxView {
    CtxView {
        surface: empty_surface_view(),
        quit: false,
        x_offset: 0,
        y_offset: 0,
        config,
    }
}

impl RenderContext {
    /// The context invariant: the surface invariant.
    pub open spec fn wf(&self) -> bool {
        self.surface.wf()
    }

    /// A fresh context with no surface committed yet.
    pub fn new(config: LoopConfig) -> (ctx: RenderContext)
        ensures
            ctx.wf(),
            ctx@ == initial_view(config),
    {
        let ctx = RenderContext {
            surface: PixelSurface::new(),
            quit_requested: false,
            x_offset: 0,
            y_offset: 0,
            config,
        };
        proof {
            assert(ctx@ =~= initial_view(config));
        }
        ctx
    }

    /// Runtime check of the context invariant, for callers outside the
    /// verified world.
    pub fn invariant_holds(&self) -> (r: bool)
        ensures
            r == self.wf(),
    {
        self.surface.invariant_holds()
    }
}

} // verus!
