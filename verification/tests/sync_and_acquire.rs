use frame_core::surface::AcquireOutcome;
use frame_core::surface::AcquireSignal;
use frame_core::surface::Extent;
use frame_core::surface::Surface;
use frame_core::surface::SurfaceCaps;
use frame_core::sync_tracker::SubmitOutcome;
use frame_core::sync_tracker::SyncTracker;
use frame_core::sync_tracker::Token;

fn surface() -> Surface {
    Surface::create(
        SurfaceCaps {
            format_supported: true,
            format: 3,
            min_image_count: 3,
        },
        Extent {
            width: 320,
            height: 200,
        },
    )
    .unwrap()
}

#[test]
fn acquire_hands_out_index_and_signal() {
    let s = surface();
    let a = s
        .acquire_next(
            AcquireOutcome::Ready {
                image_index: 2,
                suboptimal: true,
            },
            AcquireSignal { id: 9 },
        )
        .unwrap();
    assert_eq!(a.image_index, 2);
    assert!(a.suboptimal);
    assert_eq!(a.signal.id, 9);
}

#[test]
fn acquire_reports_out_of_date_and_fatal() {
    let s = surface();
    assert!(s
        .acquire_next(AcquireOutcome::OutOfDate, AcquireSignal { id: 0 })
        .is_err());
    assert!(s
        .acquire_next(AcquireOutcome::DeviceLost, AcquireSignal { id: 0 })
        .is_err());
}

#[test]
fn tracker_starts_on_the_ready_token() {
    let t = SyncTracker::new();
    assert_eq!(t.pending, Some(Token::Ready));
    assert_eq!(t.next_id, 0);
}

#[test]
fn tracker_accepted_submission_takes_the_slot() {
    let mut t = SyncTracker::new();
    t.cleanup();
    let cond = t.join(AcquireSignal { id: 0 });
    assert_eq!(cond.prev, Token::Ready);
    assert_eq!(cond.acquire_signal, 0);
    assert!(t.pending.is_none());
    let sub = t.submit(cond, SubmitOutcome::Completed).unwrap();
    assert_eq!(sub.id, 0);
    assert_eq!(sub.waits, cond);
    assert_eq!(t.pending, Some(Token::Pending { id: 0 }));
    assert_eq!(t.next_id, 1);
}

#[test]
fn tracker_flush_resets_to_the_ready_token() {
    let mut t = SyncTracker::new();
    t.cleanup();
    let cond = t.join(AcquireSignal { id: 0 });
    let r = t.submit(cond, SubmitOutcome::Flush);
    assert!(r.is_err());
    assert_eq!(t.pending, Some(Token::Ready));
    assert_eq!(t.next_id, 0);
}

#[test]
fn tracker_fatal_submit_still_leaves_a_usable_slot() {
    let mut t = SyncTracker::new();
    t.cleanup();
    let cond = t.join(AcquireSignal { id: 0 });
    let r = t.submit(cond, SubmitOutcome::DeviceLost);
    assert!(r.is_err());
    assert_eq!(t.pending, Some(Token::Ready));
}
