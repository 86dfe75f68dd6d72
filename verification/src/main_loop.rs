//! The main loop: each iteration drains the queued window events, polls the
//! controller slots, regenerates the gradient at the current scroll offsets,
//! requests a stretch-to-fit presentation into the freshly queried client
//! area, and advances the configured offsets. A quit request — observed at
//! the top of an iteration or raised by the drain pass — stops the frame
//! work; once quit is requested no further generation or presentation
//! occurs. No step waits: an iteration's inputs are whatever the process
//! boundary had on hand.

use vstd::prelude::*;
use crate::context::CtxView;
use crate::context::LoopConfig;
use crate::context::RenderContext;
use crate::context::SurfaceView;
use crate::events::WindowEvent;
use crate::geometry::Dimension;
use crate::geometry::full_region;
use crate::geometry::spec_full_region;
use crate::gradient::generate;
use crate::gradient::gradient_bytes;
use crate::input::ControllerSnapshot;
use crate::input::RawReport;
use crate::input::poll_all;
use crate::input::poll_spec;
use crate::present::PresentPolicy;
use crate::present::PresentRequest;
use crate::present::present;
use crate::present::present_spec;
use crate::pump::drain_ctx;
use crate::pump::drain_pending;
use crate::pump::drain_presents;
use crate::pump::opt_seq;
use crate::surface::size_representable;
use crate::window_proc::REFERENCE_X_OFFSET;
use crate::window_proc::REFERENCE_Y_OFFSET;
use crate::window_proc::sized_surface;

verus! {

/// Startup client-area size: the surface committed before the window is
/// first shown, so the first presentation is never empty.
pub const DEFAULT_WIDTH: usize = 1280;

pub const DEFAULT_HEIGHT: usize = 720;

/// Everything one iteration consumes from the process boundary: the window
/// events queued right now, the raw controller poll results, and the current
/// client-area size.
pub struct IterationInput {
    pub events: Vec<WindowEvent>,
    pub polls: Vec<Option<RawReport>>,
    pub client: Dimension,
}

/// Everything one iteration hands back: whether the iteration ran at all,
/// whether its frame work (poll, generate, present) ran, the presentation
/// requests to carry out in order, and the controller snapshots.
pub struct IterationOutput {
    pub ran: bool,
    pub rendered: bool,
    pub presents: Vec<PresentRequest>,
    pub snapshots: Vec<ControllerSnapshot>,
}

/// One scroll offset at the end of an iteration: up by one — wrapping at
/// the integer's width — when configured to advance, unchanged otherwise.
pub open spec fn advance_offset(offset: u32, advance: bool) -> u32 {
    if advance {
        if offset == u32::MAX {
            0u32
        } else {
            (offset + 1) as u32
        }
    } else {
        offset
    }
}

/// The surface after the generator ran at the given offsets.
pub open spec fn generated_surface(s: SurfaceView, x_offset: u32, y_offset: u32) -> SurfaceView {
    SurfaceView {
        width: s.width,
        height: s.height,
        bytes: gradient_bytes(s.width as nat, s.height as nat, x_offset as int, y_offset as int),
    }
}

/// The frame work of one iteration, after the drain pass left context `v`:
/// regenerate the surface at the current offsets and advance the configured
/// offsets.
pub open spec fn frame_ctx(v: CtxView) -> CtxView {
    CtxView {
        surface: generated_surface(v.surface, v.x_offset, v.y_offset),
        quit: v.quit,
        x_offset: advance_offset(v.x_offset, v.config.advance_x),
        y_offset: advance_offset(v.y_offset, v.config.advance_y),
        config: v.config,
    }
}

/// The context one whole iteration leaves behind: unchanged when quit was
/// already requested; otherwise the drain pass runs, and the frame work runs
/// only if the drain pass did not request quit.
pub open spec fn iteration_ctx(v: CtxView, events: Seq<WindowEvent>) -> CtxView {
    if v.quit {
        v
    } else {
        let d = drain_ctx(v, events);
        if d.quit {
            d
        } else {
            frame_ctx(d)
        }
    }
}

/// The presentation requests one iteration emits: those of the drain pass,
/// then — if the frame work ran — one stretch-to-fit presentation of the
/// surface into the full client area.
pub open spec fn iteration_presents(
    v: CtxView,
    events: Seq<WindowEvent>,
    client: Dimension,
) -> Seq<PresentRequest> {
    if v.quit {
        Seq::empty()
    } else {
        let d = drain_ctx(v, events);
        if d.quit {
            drain_presents(v, events)
        } else {
            drain_presents(v, events) + opt_seq(
                present_spec(
                    d.surface.width,
                    d.surface.height,
                    spec_full_region(client),
                    PresentPolicy::StretchToFit,
                ),
            )
        }
    }
}

/// The controller snapshots one iteration produces: a full poll pass when
/// the frame work ran, nothing otherwise.
pub open spec fn iteration_snapshots(
    v: CtxView,
    events: Seq<WindowEvent>,
    polls: Seq<Option<RawReport>>,
) -> Seq<ControllerSnapshot> {
    if v.quit {
        Seq::empty()
    } else {
        let d = drain_ctx(v, events);
        if d.quit {
            Seq::empty()
        } else {
            poll_spec(polls)
        }
    }
}

/// Whether `out` is exactly what iteration `i` of a run over `inputs`,
/// started from `orig`, owes: its flags, presentation requests and
/// snapshots, taken at the context the earlier iterations left behind.
pub open spec fn output_matches(
    orig: CtxView,
    inputs: Seq<IterationInput>,
    out: IterationOutput,
    i: int,
) -> bool {
    let pre = run_ctx(orig, inputs.take(i));
    &&& out.ran == !pre.quit
    &&& out.rendered == (!pre.quit && !drain_ctx(pre, inputs[i].events@).quit)
    &&& out.presents@ == iteration_presents(pre, inputs[i].events@, inputs[i].client)
    &&& out.snapshots@ == iteration_snapshots(pre, inputs[i].events@, inputs[i].polls@)
}

/// The context a whole run over a schedule of iteration inputs leaves
/// behind.
pub open spec fn run_ctx(v: CtxView, inputs: Seq<IterationInput>) -> CtxView
    decreases inputs.len(),
{
    if inputs.len() == 0 {
        v
    } else {
        run_ctx(iteration_ctx(v, inputs[0].events@), inputs.drop_first())
    }
}

/// Once quit is requested, an iteration does nothing at all: the context
/// is untouched, and no generation, presentation or polling occurs.
pub proof fn lemma_quit_skips_frame(
    v: CtxView,
    events: Seq<WindowEvent>,
    client: Dimension,
    polls: Seq<Option<RawReport>>,
)
    requires
        v.quit,
    ensures
        iteration_ctx(v, events) == v,
        iteration_presents(v, events, client) == Seq::<PresentRequest>::empty(),
        iteration_snapshots(v, events, polls) == Seq::<ControllerSnapshot>::empty(),
{
}

/// Once quit is requested, no amount of further input changes the context:
/// every later iteration is a no-op.
pub proof fn lemma_quit_halts(v: CtxView, inputs: Seq<IterationInput>)
    requires
        v.quit,
    ensures
        run_ctx(v, inputs) == v,
    decreases inputs.len(),
{
    if inputs.len() > 0 {
        lemma_quit_halts(v, inputs.drop_first());
    }
}

/// Running a single iteration input is one iteration step.
pub proof fn lemma_run_one(v: CtxView, input: IterationInput)
    ensures
        run_ctx(v, seq![input]) == iteration_ctx(v, input.events@),
{
    let s = seq![input];
    assert(s.len() == 1);
    assert(s[0] == input);
    assert(s.drop_first() =~= Seq::<IterationInput>::empty());
    assert(run_ctx(iteration_ctx(v, input.events@), Seq::<IterationInput>::empty())
        == iteration_ctx(v, input.events@));
}

/// Running a concatenation of two schedules equals running the first, then
/// the second from the state the first left behind.
pub proof fn lemma_run_append(v: CtxView, a: Seq<IterationInput>, b: Seq<IterationInput>)
    ensures
        run_ctx(v, a + b) == run_ctx(run_ctx(v, a), b),
    decreases a.len(),
{
    if a.len() == 0 {
        assert(a + b =~= b);
    } else {
        assert((a + b)[0] == a[0]);
        assert((a + b).drop_first() =~= a.drop_first() + b);
        lemma_run_append(iteration_ctx(v, a[0].events@), a.drop_first(), b);
    }
}

/// The state the loop starts from: surface committed at the startup default
/// size and painted at the reference offsets, quit not requested, offsets
/// zero.
pub open spec fn startup_view(config: LoopConfig) -> CtxView {
    CtxView {
        surface: sized_surface(DEFAULT_WIDTH, DEFAULT_HEIGHT),
        quit: false,
        x_offset: 0,
        y_offset: 0,
        config,
    }
}

/// Build the loop's starting context: the surface resized once to the
/// startup default and pattern-generated before the window is shown.
pub fn startup(config: LoopConfig) -> (ctx: RenderContext)
    ensures
        ctx.wf(),
        ctx@ == startup_view(config),
{
    let mut ctx = RenderContext::new(config);
    match ctx.surface.resize(DEFAULT_WIDTH, DEFAULT_HEIGHT) {
        Ok(_) => {
            generate(&mut ctx.surface, REFERENCE_X_OFFSET, REFERENCE_Y_OFFSET);
        },
        Err(_) => {},
    }
    proof {
        assert(size_representable(DEFAULT_WIDTH, DEFAULT_HEIGHT));
        assert(ctx@ =~= startup_view(config));
    }
    ctx
}

/// Run one loop iteration against the context, consuming one bundle of
/// boundary inputs. Never blocks: every step works only on what was handed
/// in.
pub fn run_iteration(ctx: &mut RenderContext, input: &IterationInput) -> (out: IterationOutput)
    requires
        old(ctx).wf(),
    ensures
        final(ctx).wf(),
        final(ctx)@ == iteration_ctx(old(ctx)@, input.events@),
        out.presents@ == iteration_presents(old(ctx)@, input.events@, input.client),
        out.snapshots@ == iteration_snapshots(old(ctx)@, input.events@, input.polls@),
        out.ran == !old(ctx)@.quit,
        out.rendered == (!old(ctx)@.quit && !drain_ctx(old(ctx)@, input.events@).quit),
{
    if ctx.quit_requested {
        let out = IterationOutput {
            ran: false,
            rendered: false,
            presents: Vec::new(),
            snapshots: Vec::new(),
        };
        proof {
            assert(out.presents@ =~= iteration_presents(old(ctx)@, input.events@, input.client));
            assert(out.snapshots@ =~= iteration_snapshots(
                old(ctx)@,
                input.events@,
                input.polls@,
            ));
        }
        return out;
    }
    let mut presents = drain_pending(ctx, &input.events);
    if ctx.quit_requested {
        let out = IterationOutput {
            ran: true,
            rendered: false,
            presents,
            snapshots: Vec::new(),
        };
        proof {
            assert(out.snapshots@ =~= iteration_snapshots(
                old(ctx)@,
                input.events@,
                input.polls@,
            ));
        }
        return out;
    }
    let snapshots = poll_all(&input.polls);
    let x_offset = ctx.x_offset;
    let y_offset = ctx.y_offset;
    generate(&mut ctx.surface, x_offset, y_offset);
    let target = full_region(&input.client);
    match present(&ctx.surface, &target, PresentPolicy::StretchToFit) {
        Some(request) => presents.push(request),
        None => {},
    }
    if ctx.config.advance_x {
        ctx.x_offset = ctx.x_offset.wrapping_add(1);
    }
    if ctx.config.advance_y {
        ctx.y_offset = ctx.y_offset.wrapping_add(1);
    }
    proof {
        assert(ctx@ =~= iteration_ctx(old(ctx)@, input.events@));
        assert(presents@ =~= iteration_presents(old(ctx)@, input.events@, input.client));
    }
    IterationOutput { ran: true, rendered: true, presents, snapshots }
}

/// Run the loop over a schedule of iteration inputs, stopping early the
/// iteration after quit is requested (that and all later inputs still
/// produce an output, with nothing in it). One output per input.
pub fn run(ctx: &mut RenderContext, inputs: &Vec<IterationInput>) -> (outs: Vec<IterationOutput>)
    requires
        old(ctx).wf(),
    ensures
        final(ctx).wf(),
        final(ctx)@ == run_ctx(old(ctx)@, inputs@),
        outs@.len() == inputs@.len(),
        forall|i: int|
            0 <= i < inputs@.len() ==> output_matches(old(ctx)@, inputs@, #[trigger] outs@[i], i),
{
    let ghost orig = ctx@;
    let mut outs: Vec<IterationOutput> = Vec::new();
    let mut i: usize = 0;
    proof {
        assert(inputs@.take(0) =~= Seq::<IterationInput>::empty());
    }
    while i < inputs.len()
        invariant
            ctx.wf(),
            i <= inputs@.len(),
            ctx@ == run_ctx(orig, inputs@.take(i as int)),
            outs@.len() == i,
            forall|j: int| 0 <= j < i ==> output_matches(orig, inputs@, #[trigger] outs@[j], j),
        decreases inputs@.len() - i,
    {
        let ghost prefix = inputs@.take(i as int);
        let ghost vcur = ctx@;
        let input = &inputs[i];
        let out = run_iteration(ctx, input);
        outs.push(out);
        proof {
            assert(inputs@.take(i as int + 1) =~= prefix + seq![inputs@[i as int]]);
            lemma_run_append(orig, prefix, seq![inputs@[i as int]]);
            lemma_run_one(vcur, inputs@[i as int]);
        }
        i = i + 1;
    }
    proof {
        assert(inputs@.take(inputs@.len() as int) =~= inputs@);
    }
    outs
}

} // verus!
