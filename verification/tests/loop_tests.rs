use renderloop::context::LoopConfig;
use renderloop::context::RenderContext;
use renderloop::events::EventOutcome;
use renderloop::events::WindowEvent;
use renderloop::geometry::Dimension;
use renderloop::geometry::Region;
use renderloop::geometry::dimension_of;
use renderloop::geometry::full_region;
use renderloop::geometry::intersect;
use renderloop::input::MAX_CONTROLLER_COUNT;
use renderloop::input::RawReport;
use renderloop::main_loop::DEFAULT_HEIGHT;
use renderloop::main_loop::DEFAULT_WIDTH;
use renderloop::main_loop::IterationInput;
use renderloop::main_loop::run;
use renderloop::main_loop::run_iteration;
use renderloop::main_loop::startup;
use renderloop::present::PresentPolicy;
use renderloop::present::PresentRequest;
use renderloop::present::present;
use renderloop::pump::drain_pending;
use renderloop::surface::PixelSurface;
use renderloop::window_proc::handle_event;

fn empty_input(client_width: usize, client_height: usize) -> IterationInput {
    IterationInput {
        events: Vec::new(),
        polls: Vec::new(),
        client: Dimension { width: client_width, height: client_height },
    }
}

#[test]
fn drain_with_no_queued_events_is_a_no_op() {
    let mut ctx = startup(LoopConfig::default());
    let width = ctx.surface.width;
    let height = ctx.surface.height;
    let events: Vec<WindowEvent> = Vec::new();
    let presents = drain_pending(&mut ctx, &events);
    assert!(presents.is_empty());
    assert!(!ctx.quit_requested);
    assert_eq!(ctx.surface.width, width);
    assert_eq!(ctx.surface.height, height);
    assert_eq!(ctx.x_offset, 0);
    assert_eq!(ctx.y_offset, 0);
}

#[test]
fn end_to_end_size_paint_close() {
    let mut ctx = RenderContext::new(LoopConfig::default());
    assert_eq!(ctx.surface.width, 0);

    // Size(800, 600): the surface is reallocated and painted at the
    // reference offsets (128, 0).
    let presents = drain_pending(&mut ctx, &vec![WindowEvent::Size { width: 800, height: 600 }]);
    assert!(presents.is_empty());
    assert_eq!(ctx.surface.width, 800);
    assert_eq!(ctx.surface.height, 600);
    assert_eq!(ctx.surface.buffer.len(), 800 * 600 * 4);
    for &(x, y) in &[(0usize, 0usize), (799, 0), (0, 599), (321, 123)] {
        let base = (y * 800 + x) * 4;
        assert_eq!(ctx.surface.buffer[base], 0);
        assert_eq!(ctx.surface.buffer[base + 1], 0);
        assert_eq!(ctx.surface.buffer[base + 2], ((x + 128) % 256) as u8);
        assert_eq!(ctx.surface.buffer[base + 3], (y % 256) as u8);
    }

    // Paint over the full region: one direct-region presentation of the
    // 800 by 600 surface into the full region.
    let region = Region { left: 0, top: 0, right: 800, bottom: 600 };
    let presents = drain_pending(&mut ctx, &vec![WindowEvent::Paint { region }]);
    assert_eq!(presents.len(), 1);
    assert_eq!(
        presents[0],
        PresentRequest {
            policy: PresentPolicy::DirectRegion,
            surface_width: 800,
            surface_height: 600,
            dest: region,
        }
    );
    assert!(!ctx.quit_requested);

    // Close: quit is requested, and nothing further is generated or
    // presented.
    let presents = drain_pending(&mut ctx, &vec![WindowEvent::Close]);
    assert!(presents.is_empty());
    assert!(ctx.quit_requested);

    let out = run_iteration(&mut ctx, &empty_input(800, 600));
    assert!(!out.ran);
    assert!(!out.rendered);
    assert!(out.presents.is_empty());
    assert!(out.snapshots.is_empty());
    assert_eq!(ctx.surface.width, 800);
    assert_eq!(ctx.surface.buffer[2], 128);
}

#[test]
fn five_iterations_with_no_events() {
    let mut ctx = startup(LoopConfig::default());
    let inputs: Vec<IterationInput> = (0..5).map(|_| empty_input(640, 480)).collect();
    let outs = run(&mut ctx, &inputs);
    assert_eq!(outs.len(), 5);
    for out in &outs {
        assert!(out.ran);
        assert!(out.rendered);
        assert_eq!(out.presents.len(), 1);
        assert_eq!(
            out.presents[0],
            PresentRequest {
                policy: PresentPolicy::StretchToFit,
                surface_width: DEFAULT_WIDTH,
                surface_height: DEFAULT_HEIGHT,
                dest: Region { left: 0, top: 0, right: 640, bottom: 480 },
            }
        );
        assert_eq!(out.snapshots.len(), MAX_CONTROLLER_COUNT);
    }
    assert_eq!(ctx.x_offset, 5);
    assert_eq!(ctx.y_offset, 5);
    // The last generation ran at offsets (4, 4): red of pixel (0, 0) is 4.
    assert_eq!(ctx.surface.buffer[2], 4);
    assert_eq!(ctx.surface.buffer[3], 4);
}

#[test]
fn offsets_advance_only_as_configured() {
    let mut ctx = startup(LoopConfig { advance_x: true, advance_y: false });
    let inputs: Vec<IterationInput> = (0..3).map(|_| empty_input(100, 100)).collect();
    let outs = run(&mut ctx, &inputs);
    assert_eq!(outs.len(), 3);
    assert_eq!(ctx.x_offset, 3);
    assert_eq!(ctx.y_offset, 0);
}

#[test]
fn iteration_polls_every_slot() {
    let mut ctx = startup(LoopConfig::default());
    let input = IterationInput {
        events: Vec::new(),
        polls: vec![Some(RawReport { buttons: 0x1000, stick_x: 7, stick_y: -7 })],
        client: Dimension { width: 320, height: 200 },
    };
    let out = run_iteration(&mut ctx, &input);
    assert_eq!(out.snapshots.len(), MAX_CONTROLLER_COUNT);
    assert!(out.snapshots[0].connected);
    assert!(out.snapshots[0].button_a);
    assert_eq!(out.snapshots[0].stick_x, 7);
    assert!(!out.snapshots[1].connected);
}

#[test]
fn empty_surface_presents_nothing() {
    let mut ctx = RenderContext::new(LoopConfig::default());
    let out = run_iteration(&mut ctx, &empty_input(300, 200));
    assert!(out.ran);
    assert!(out.rendered);
    assert!(out.presents.is_empty());
    assert_eq!(ctx.x_offset, 1);
    assert_eq!(ctx.y_offset, 1);
}

#[test]
fn quit_mid_drain_finishes_the_pass_then_skips_frame_work() {
    let mut ctx = startup(LoopConfig::default());
    let region = Region { left: 0, top: 0, right: 10, bottom: 10 };
    let input = IterationInput {
        events: vec![WindowEvent::Close, WindowEvent::Paint { region }],
        polls: Vec::new(),
        client: Dimension { width: 640, height: 480 },
    };
    let out = run_iteration(&mut ctx, &input);
    assert!(out.ran);
    assert!(!out.rendered);
    // The paint event queued after the close is still dispatched in the
    // same drain pass, so its presentation request is emitted; the
    // iteration's own stretch-to-fit presentation is not.
    assert_eq!(out.presents.len(), 1);
    assert_eq!(out.presents[0].policy, PresentPolicy::DirectRegion);
    assert!(out.snapshots.is_empty());
    assert!(ctx.quit_requested);
    assert_eq!(ctx.x_offset, 0);
}

#[test]
fn paint_request_is_clipped_to_the_surface() {
    let mut ctx = RenderContext::new(LoopConfig::default());
    let presents = drain_pending(&mut ctx, &vec![WindowEvent::Size { width: 100, height: 50 }]);
    assert!(presents.is_empty());
    let dirty = Region { left: 90, top: 40, right: 200, bottom: 300 };
    let presents = drain_pending(&mut ctx, &vec![WindowEvent::Paint { region: dirty }]);
    assert_eq!(presents.len(), 1);
    assert_eq!(presents[0].dest, Region { left: 90, top: 40, right: 100, bottom: 50 });
}

#[test]
fn paint_missing_the_surface_presents_nothing() {
    let mut ctx = RenderContext::new(LoopConfig::default());
    drain_pending(&mut ctx, &vec![WindowEvent::Size { width: 100, height: 50 }]);
    let dirty = Region { left: 100, top: 0, right: 300, bottom: 50 };
    let presents = drain_pending(&mut ctx, &vec![WindowEvent::Paint { region: dirty }]);
    assert!(presents.is_empty());
}

#[test]
fn destroy_and_other_events() {
    let mut ctx = RenderContext::new(LoopConfig::default());
    let r = handle_event(&mut ctx, &WindowEvent::ActivateApp);
    assert_eq!(r.outcome, EventOutcome::Handled);
    assert!(!ctx.quit_requested);
    let r = handle_event(&mut ctx, &WindowEvent::Other { raw: 0x0200 });
    assert_eq!(r.outcome, EventOutcome::Passthrough);
    assert!(!ctx.quit_requested);
    let r = handle_event(&mut ctx, &WindowEvent::Destroy);
    assert_eq!(r.outcome, EventOutcome::Handled);
    assert!(ctx.quit_requested);
}

#[test]
fn oversize_resize_event_degrades_to_empty_surface() {
    let mut ctx = startup(LoopConfig::default());
    let presents = drain_pending(
        &mut ctx,
        &vec![WindowEvent::Size { width: usize::MAX, height: 2 }],
    );
    assert!(presents.is_empty());
    assert_eq!(ctx.surface.width, 0);
    assert_eq!(ctx.surface.height, 0);
    assert!(ctx.invariant_holds());
    // The next iteration tolerates the empty surface by presenting nothing.
    let out = run_iteration(&mut ctx, &empty_input(640, 480));
    assert!(out.rendered);
    assert!(out.presents.is_empty());
}

#[test]
fn stretch_present_keeps_the_target() {
    let mut s = PixelSurface::new();
    assert!(s.resize(16, 9).is_ok());
    let target = Region { left: 0, top: 0, right: 1000, bottom: 700 };
    let r = present(&s, &target, PresentPolicy::StretchToFit);
    let req = r.expect("a non-empty surface must yield a stretch request");
    assert_eq!(req.surface_width, 16);
    assert_eq!(req.surface_height, 9);
    assert_eq!(req.dest, target);
}

#[test]
fn region_helpers() {
    let a = Region { left: 0, top: 0, right: 10, bottom: 10 };
    let b = Region { left: 5, top: 7, right: 20, bottom: 8 };
    assert_eq!(intersect(&a, &b), Region { left: 5, top: 7, right: 10, bottom: 8 });
    let d = dimension_of(&b);
    assert_eq!(d.width, 15);
    assert_eq!(d.height, 1);
    assert_eq!(
        full_region(&Dimension { width: 3, height: 4 }),
        Region { left: 0, top: 0, right: 3, bottom: 4 }
    );
}

#[test]
fn offsets_wrap_at_the_integer_width() {
    let mut ctx = RenderContext::new(LoopConfig::default());
    ctx.x_offset = u32::MAX;
    ctx.y_offset = u32::MAX - 1;
    let out = run_iteration(&mut ctx, &empty_input(10, 10));
    assert!(out.ran);
    assert_eq!(ctx.x_offset, 0);
    assert_eq!(ctx.y_offset, u32::MAX);
}

#[test]
fn default_config_advances_both_offsets() {
    let config = LoopConfig::default();
    assert!(config.advance_x);
    assert!(config.advance_y);
}
