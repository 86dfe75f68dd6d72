//! The event pump: one drain pass over the currently queued window events.
//! Each event is dispatched synchronously to the window procedure before the
//! next is taken; a quit request observed mid-drain does not cut the pass
//! short. A pass over no events is a no-op — draining never waits for an
//! event to arrive.

use vstd::prelude::*;
use crate::context::CtxView;
use crate::context::RenderContext;
use crate::events::WindowEvent;
use crate::present::PresentRequest;
use crate::window_proc::event_present;
use crate::window_proc::handle_event;
use crate::window_proc::step_event;

verus! {

/// An optional element as a sequence of zero or one elements.
pub open spec fn opt_seq<A>(o: Option<A>) -> Seq<A> {
    match o {
        Option::Some(a) => seq![a],
        Option::None => Seq::empty(),
    }
}

/// The context a drain pass over `events` leaves behind: each event stepped
/// through the window procedure, in order.
pub open spec fn drain_ctx(v: CtxView, events: Seq<WindowEvent>) -> CtxView
    decreases events.len(),
{
    if events.len() == 0 {
        v
    } else {
        drain_ctx(step_event(v, events[0]), events.drop_first())
    }
}

/// The presentation requests a drain pass over `events` emits, in dispatch
/// order.
pub open spec fn drain_presents(v: CtxView, events: Seq<WindowEvent>) -> Seq<PresentRequest>
    decreases events.len(),
{
    if events.len() == 0 {
        Seq::empty()
    } else {
        opt_seq(event_present(v, events[0])) + drain_presents(
            step_event(v, events[0]),
            events.drop_first(),
        )
    }
}

/// A drain pass over no queued events changes nothing and presents nothing.
pub proof fn lemma_drain_no_events(v: CtxView)
    ensures
        drain_ctx(v, Seq::<WindowEvent>::empty()) == v,
        drain_presents(v, Seq::<WindowEvent>::empty()) == Seq::<PresentRequest>::empty(),
{
}

/// Draining a single event is one window-procedure step.
pub proof fn lemma_drain_one(v: CtxView, event: WindowEvent)
    ensures
        drain_ctx(v, seq![event]) == step_event(v, event),
        drain_presents(v, seq![event]) == opt_seq(event_present(v, event)),
{
    let s = seq![event];
    assert(s.len() == 1);
    assert(s[0] == event);
    assert(s.drop_first() =~= Seq::<WindowEvent>::empty());
    assert(drain_ctx(step_event(v, event), Seq::<WindowEvent>::empty()) == step_event(v, event));
    assert(drain_ctx(v, s) == drain_ctx(step_event(v, event), s.drop_first()));
    assert(drain_presents(step_event(v, event), Seq::<WindowEvent>::empty())
        =~= Seq::<PresentRequest>::empty());
    assert(drain_presents(v, s) =~= opt_seq(event_present(v, event)));
}

/// Draining a concatenation of two queues equals draining the first, then
/// the second from the state the first left behind; the emitted requests
/// concatenate in the same order.
pub proof fn lemma_drain_append(v: CtxView, a: Seq<WindowEvent>, b: Seq<WindowEvent>)
    ensures
        drain_ctx(v, a + b) == drain_ctx(drain_ctx(v, a), b),
        drain_presents(v, a + b) == drain_presents(v, a) + drain_presents(drain_ctx(v, a), b),
    decreases a.len(),
{
    if a.len() == 0 {
        assert(a + b =~= b);
        assert(drain_presents(v, a) + drain_presents(drain_ctx(v, a), b) =~= drain_presents(
            v,
            b,
        ));
    } else {
        assert((a + b)[0] == a[0]);
        assert((a + b).drop_first() =~= a.drop_first() + b);
        lemma_drain_append(step_event(v, a[0]), a.drop_first(), b);
        assert(drain_presents(v, a + b) =~= drain_presents(v, a) + drain_presents(
            drain_ctx(v, a),
            b,
        ));
    }
}

/// Drain every currently queued event, dispatching each to the window
/// procedure in order, and collect the presentation requests the paint
/// notifications yielded. Returns immediately when `events` is empty.
pub fn drain_pending(ctx: &mut RenderContext, events: &Vec<WindowEvent>) -> (presents: Vec<
    PresentRequest,
>)
    requires
        old(ctx).wf(),
    ensures
        final(ctx).wf(),
        final(ctx)@ == drain_ctx(old(ctx)@, events@),
        presents@ == drain_presents(old(ctx)@, events@),
{
    let ghost orig = ctx@;
    let mut presents: Vec<PresentRequest> = Vec::new();
    let mut i: usize = 0;
    proof {
        assert(events@.take(0) =~= Seq::<WindowEvent>::empty());
        assert(presents@ =~= drain_presents(orig, events@.take(0)));
    }
    while i < events.len()
        invariant
            ctx.wf(),
            i <= events@.len(),
            ctx@ == drain_ctx(orig, events@.take(i as int)),
            presents@ == drain_presents(orig, events@.take(i as int)),
        decreases events@.len() - i,
    {
        let ghost prefix = events@.take(i as int);
        let ghost vcur = ctx@;
        let event = events[i];
        let r = handle_event(ctx, &event);
        match r.present {
            Some(p) => presents.push(p),
            None => {},
        }
        proof {
            assert(events@.take(i as int + 1) =~= prefix + seq![event]);
            lemma_drain_append(orig, prefix, seq![event]);
            lemma_drain_one(vcur, event);
            assert(presents@ =~= drain_presents(orig, events@.take(i as int + 1)));
        }
        i = i + 1;
    }
    proof {
        assert(events@.take(events@.len() as int) =~= events@);
    }
    presents
}

} // verus!
