use frame_core::frame_loop::FrameLoop;
use frame_core::frame_loop::LoopState;
use frame_core::frame_loop::TickEnv;
use frame_core::frame_loop::TickError;
use frame_core::frame_loop::TickStatus;
use frame_core::resources::Viewport;
use frame_core::resources::rebuild_targets;
use frame_core::surface::AcquireOutcome;
use frame_core::surface::Extent;
use frame_core::surface::RecreateOutcome;
use frame_core::surface::Surface;
use frame_core::surface::SurfaceCaps;
use frame_core::sync_tracker::SubmitOutcome;
use frame_core::sync_tracker::Token;

const RENDER_PASS: u64 = 11;
const VERTEX_COUNT: u32 = 3;

fn caps() -> SurfaceCaps {
    SurfaceCaps {
        format_supported: true,
        format: 7,
        min_image_count: 2,
    }
}

fn extent(width: u32, height: u32) -> Extent {
    Extent { width, height }
}

fn start_viewport() -> Viewport {
    Viewport {
        origin_x: 0,
        origin_y: 0,
        width: 0,
        height: 0,
    }
}

fn make_loop(width: u32, height: u32) -> FrameLoop {
    let surface = Surface::create(caps(), extent(width, height)).unwrap();
    FrameLoop::new(surface, RENDER_PASS, VERTEX_COUNT, start_viewport())
}

fn quiet_env(width: u32, height: u32) -> TickEnv {
    TickEnv {
        window_extent: extent(width, height),
        recreate: RecreateOutcome::Success,
        acquire: AcquireOutcome::Ready {
            image_index: 0,
            suboptimal: false,
        },
        submit: SubmitOutcome::Completed,
        close_during_acquire: false,
    }
}

#[test]
fn create_takes_platform_choices() {
    let s = Surface::create(caps(), extent(800, 600)).unwrap();
    assert_eq!(s.format, 7);
    assert_eq!(s.extent, extent(800, 600));
    assert_eq!(s.image_count, 2);
    assert_eq!(s.generation, 0);
}

#[test]
fn create_rejects_unsupported_surface() {
    let mut c = caps();
    c.format_supported = false;
    let r = Surface::create(c, extent(800, 600));
    assert!(r.is_err());
}

#[test]
fn recreate_keeps_format_and_count_bumps_generation() {
    let s = Surface::create(caps(), extent(800, 600)).unwrap();
    let s2 = s
        .recreate(extent(400, 300), RecreateOutcome::Success)
        .unwrap();
    assert_eq!(s2.format, s.format);
    assert_eq!(s2.image_count, s.image_count);
    assert_eq!(s2.extent, extent(400, 300));
    assert_eq!(s2.generation, 1);
}

#[test]
fn recreate_reports_transient_and_fatal_errors() {
    let s = Surface::create(caps(), extent(800, 600)).unwrap();
    assert!(s
        .recreate(extent(0, 0), RecreateOutcome::ExtentUnsupported)
        .is_err());
    assert!(s
        .recreate(extent(400, 300), RecreateOutcome::DeviceLost)
        .is_err());
}

#[test]
fn rebuild_derives_one_target_per_image_and_fits_viewport() {
    let s = Surface::create(caps(), extent(640, 480)).unwrap();
    let mut vp = Viewport {
        origin_x: 5,
        origin_y: 6,
        width: 1,
        height: 2,
    };
    let ts = rebuild_targets(&s, RENDER_PASS, &mut vp);
    assert_eq!(ts.len(), 2);
    for (i, t) in ts.iter().enumerate() {
        assert_eq!(t.image_index, i);
        assert_eq!(t.extent, extent(640, 480));
        assert_eq!(t.surface_generation, 0);
        assert_eq!(t.render_pass, RENDER_PASS);
    }
    assert_eq!(vp.width, 640);
    assert_eq!(vp.height, 480);
    assert_eq!(vp.origin_x, 5);
    assert_eq!(vp.origin_y, 6);
}

#[test]
fn tick_completes_a_full_cycle() {
    let mut fl = make_loop(800, 600);
    let r = fl.tick(&quiet_env(800, 600));
    assert_eq!(r.status, TickStatus::Completed);
    assert!(r.cleaned);
    assert!(!r.recreate_attempted);
    assert_eq!(r.acquired, Some(0));
    assert!(r.presented);
    let c = r.commands.unwrap();
    assert_eq!(c.image_index, 0);
    assert_eq!(c.target_generation, 0);
    assert_eq!(c.vertex_count, VERTEX_COUNT);
    assert_eq!(c.viewport.width, 800);
    assert_eq!(c.viewport.height, 600);
    let s = r.submitted.unwrap();
    assert_eq!(s.id, 0);
    assert_eq!(s.waits.prev, Token::Ready);
    assert_eq!(s.waits.acquire_signal, 0);
    assert_eq!(fl.sync.pending, Some(Token::Pending { id: 0 }));
    assert_eq!(fl.state, LoopState::Running);
}

#[test]
fn tokens_chain_one_per_tick() {
    let mut fl = make_loop(800, 600);
    let r1 = fl.tick(&quiet_env(800, 600));
    let r2 = fl.tick(&quiet_env(800, 600));
    let s1 = r1.submitted.unwrap();
    let s2 = r2.submitted.unwrap();
    assert_eq!(s1.waits.prev, Token::Ready);
    assert_eq!(s2.waits.prev, Token::Pending { id: s1.id });
    assert_eq!(s2.waits.acquire_signal, 1);
    assert_eq!(fl.sync.pending, Some(Token::Pending { id: s2.id }));
}

#[test]
fn five_quiet_ticks_then_resize() {
    let mut fl = make_loop(800, 600);
    for i in 0..5u64 {
        let r = fl.tick(&quiet_env(800, 600));
        assert_eq!(r.status, TickStatus::Completed);
        assert_eq!(r.submitted.unwrap().id, i);
        assert!(r.presented);
        assert_ne!(r.status, TickStatus::Aborted(TickError::Fatal));
    }
    assert_eq!(fl.sync.pending, Some(Token::Pending { id: 4 }));
    fl.on_resized();
    let r = fl.tick(&quiet_env(400, 300));
    assert!(r.recreate_attempted);
    assert!(r.recreated);
    assert_eq!(fl.surface.extent, extent(400, 300));
    assert_eq!(fl.surface.generation, 1);
    assert_eq!(fl.targets.len(), 2);
    for t in fl.targets.iter() {
        assert_eq!(t.extent, extent(400, 300));
        assert_eq!(t.surface_generation, 1);
    }
    assert_eq!(fl.viewport.width, 400);
    assert_eq!(fl.viewport.height, 300);
    // the rebuild happened before the acquire, and the tick still completed
    assert_eq!(r.acquired, Some(0));
    assert_eq!(r.status, TickStatus::Completed);
    assert_eq!(r.commands.unwrap().target_generation, 1);
}

#[test]
fn out_of_date_skips_submit_and_recreates_next_tick() {
    let mut fl = make_loop(800, 600);
    let mut env = quiet_env(800, 600);
    env.acquire = AcquireOutcome::OutOfDate;
    let r1 = fl.tick(&env);
    assert_eq!(r1.status, TickStatus::Aborted(TickError::Stale));
    assert!(r1.submitted.is_none());
    assert!(r1.commands.is_none());
    assert!(!r1.presented);
    assert!(fl.resize_requested);
    let r2 = fl.tick(&quiet_env(800, 600));
    assert!(r2.recreate_attempted);
    assert!(r2.recreated);
    assert_eq!(r2.status, TickStatus::Completed);
    assert_eq!(fl.surface.generation, 1);
}

#[test]
fn flush_resets_token_and_schedules_rebuild() {
    let mut fl = make_loop(800, 600);
    let mut env = quiet_env(800, 600);
    env.submit = SubmitOutcome::Flush;
    let r = fl.tick(&env);
    assert_eq!(r.status, TickStatus::Aborted(TickError::Stale));
    assert!(r.submitted.is_some());
    assert!(!r.presented);
    assert_eq!(fl.sync.pending, Some(Token::Ready));
    assert!(fl.resize_requested);
    // the next tick proceeds instead of deadlocking or dying
    let r2 = fl.tick(&quiet_env(800, 600));
    assert_eq!(r2.status, TickStatus::Completed);
    assert_eq!(r2.submitted.unwrap().waits.prev, Token::Ready);
}

#[test]
fn extent_unsupported_skips_tick_until_it_works() {
    let mut fl = make_loop(800, 600);
    fl.on_resized();
    let mut env = quiet_env(100, 100);
    env.recreate = RecreateOutcome::ExtentUnsupported;
    let r1 = fl.tick(&env);
    assert_eq!(r1.status, TickStatus::Aborted(TickError::Transient));
    assert!(r1.recreate_attempted);
    assert!(!r1.recreated);
    assert!(r1.acquired.is_none());
    assert_eq!(fl.state, LoopState::AwaitingResize);
    assert!(fl.resize_requested);
    assert_eq!(fl.surface.generation, 0);
    let r2 = fl.tick(&quiet_env(100, 100));
    assert!(r2.recreated);
    assert_eq!(r2.status, TickStatus::Completed);
    assert_eq!(fl.surface.extent, extent(100, 100));
    assert_eq!(fl.state, LoopState::Running);
}

#[test]
fn suboptimal_completes_then_rebuilds_next_tick() {
    let mut fl = make_loop(800, 600);
    let mut env = quiet_env(800, 600);
    env.acquire = AcquireOutcome::Ready {
        image_index: 1,
        suboptimal: true,
    };
    let r = fl.tick(&env);
    assert_eq!(r.status, TickStatus::Completed);
    assert!(r.presented);
    assert!(fl.resize_requested);
    let r2 = fl.tick(&quiet_env(800, 600));
    assert!(r2.recreate_attempted);
    assert!(r2.recreated);
}

#[test]
fn close_request_ends_the_loop_at_the_next_tick() {
    let mut fl = make_loop(800, 600);
    fl.on_close_requested();
    let r = fl.tick(&quiet_env(800, 600));
    assert_eq!(r.status, TickStatus::Closed);
    assert!(!r.cleaned);
    assert!(r.acquired.is_none());
    assert!(r.submitted.is_none());
    assert!(!r.presented);
    assert_eq!(fl.state, LoopState::Exiting);
}

#[test]
fn close_during_acquire_preempts_submit_and_present() {
    let mut fl = make_loop(800, 600);
    let mut env = quiet_env(800, 600);
    env.close_during_acquire = true;
    let r = fl.tick(&env);
    assert_eq!(r.status, TickStatus::Closed);
    assert_eq!(r.acquired, Some(0));
    assert!(r.commands.is_none());
    assert!(r.submitted.is_none());
    assert!(!r.presented);
    assert_eq!(fl.state, LoopState::Exiting);
    // the tick after the terminal state does nothing
    let r2 = fl.tick(&quiet_env(800, 600));
    assert_eq!(r2.status, TickStatus::Closed);
    assert!(r2.acquired.is_none());
}

#[test]
fn fatal_answers_are_reported_fatal() {
    let mut fl = make_loop(800, 600);
    let mut env = quiet_env(800, 600);
    env.acquire = AcquireOutcome::DeviceLost;
    assert_eq!(
        fl.tick(&env).status,
        TickStatus::Aborted(TickError::Fatal)
    );

    let mut fl = make_loop(800, 600);
    let mut env = quiet_env(800, 600);
    env.submit = SubmitOutcome::DeviceLost;
    assert_eq!(
        fl.tick(&env).status,
        TickStatus::Aborted(TickError::Fatal)
    );

    let mut fl = make_loop(800, 600);
    fl.on_resized();
    let mut env = quiet_env(800, 600);
    env.recreate = RecreateOutcome::DeviceLost;
    assert_eq!(
        fl.tick(&env).status,
        TickStatus::Aborted(TickError::Fatal)
    );
}

#[test]
fn single_image_chain_still_cycles() {
    let surface = Surface::create(
        SurfaceCaps {
            format_supported: true,
            format: 7,
            min_image_count: 1,
        },
        extent(800, 600),
    )
    .unwrap();
    let mut fl = FrameLoop::new(surface, RENDER_PASS, VERTEX_COUNT, start_viewport());
    assert_eq!(fl.targets.len(), 1);
    let r = fl.tick(&quiet_env(800, 600));
    assert_eq!(r.status, TickStatus::Completed);
    assert_eq!(r.acquired, Some(0));
}

#[test]
fn resize_twice_to_same_extent_is_idempotent() {
    let s0 = Surface::create(caps(), extent(800, 600)).unwrap();
    let mut vp = start_viewport();
    let s1 = s0.recreate(extent(400, 300), RecreateOutcome::Success).unwrap();
    let t1 = rebuild_targets(&s1, RENDER_PASS, &mut vp);
    let vp1 = vp;
    let s2 = s1.recreate(extent(400, 300), RecreateOutcome::Success).unwrap();
    let t2 = rebuild_targets(&s2, RENDER_PASS, &mut vp);
    assert_eq!(t2.len(), t1.len());
    for (a, b) in t1.iter().zip(t2.iter()) {
        assert_eq!(a.image_index, b.image_index);
        assert_eq!(a.extent, b.extent);
    }
    assert_eq!(vp, vp1);
}

#[test]
fn commands_always_reference_the_current_generation() {
    let mut fl = make_loop(800, 600);
    fl.on_resized();
    let r = fl.tick(&quiet_env(1024, 768));
    let c = r.commands.unwrap();
    assert_eq!(c.target_generation, fl.surface.generation);
    assert_eq!(
        fl.targets[c.image_index].surface_generation,
        fl.surface.generation
    );
}
