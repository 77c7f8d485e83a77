//! The guarantees of the frame lifecycle, stated across the components and
//! proved against the tick transition [`tick_rel`].

use vstd::prelude::*;

use crate::frame_loop::FrameLoop;
use crate::frame_loop::TickEnv;
use crate::frame_loop::TickError;
use crate::frame_loop::TickReport;
use crate::frame_loop::TickStatus;
use crate::frame_loop::no_frame_work;
use crate::frame_loop::tick_rel;
use crate::resources::FrameTarget;
use crate::resources::Viewport;
use crate::resources::targets_for;
use crate::resources::viewport_fitted;
use crate::surface::AcquireOutcome;
use crate::surface::Extent;
use crate::surface::Surface;
use crate::sync_tracker::JoinedCondition;
use crate::sync_tracker::Token;

verus! {

/// Whatever the platform answers, a well-formed loop steps to a well-formed
/// loop: ticks can be chained forever without losing the resource and sync
/// invariants.
pub proof fn lemma_tick_preserves_wf(pre: FrameLoop, env: TickEnv, post: FrameLoop, r: TickReport)
    requires
        pre.wf(),
        tick_rel(pre, env, post, r),
    ensures
        post.wf(),
{
}

/// Single-flight: across every tick at most one in-flight token exists, and
/// a submission is issued only joined on the token that was pending when the
/// tick began, together with the signal of the image acquired in that same
/// tick. The token the queue accepted takes the slot.
pub proof fn lemma_single_flight(pre: FrameLoop, env: TickEnv, post: FrameLoop, r: TickReport)
    requires
        pre.wf(),
        tick_rel(pre, env, post, r),
    ensures
        post.sync.pending_count() <= 1,
        post.sync.wf(),
        r.submitted matches Some(s) ==> {
            &&& pre.sync.pending matches Some(prev) && s.waits == (JoinedCondition {
                prev,
                acquire_signal: pre.next_signal,
            })
            &&& s.id == pre.sync.next_id
            &&& r.acquired is Some
        },
        r.submitted is Some && env.submit is Completed ==> post.sync.pending == Some(
            Token::Pending { id: pre.sync.next_id },
        ),
{
}

/// Resource coherence: after every tick the target batch in use is exactly
/// the one derived from the current surface, and the commands recorded in
/// the tick reference a target of the current surface generation — never one
/// rebuilt from a stale generation.
pub proof fn lemma_resource_coherence(pre: FrameLoop, env: TickEnv, post: FrameLoop, r: TickReport)
    requires
        pre.wf(),
        tick_rel(pre, env, post, r),
        env.acquire matches AcquireOutcome::Ready { image_index, .. } ==> image_index
            < pre.surface.image_count,
    ensures
        targets_for(post.surface, post.render_pass, post.targets@),
        r.commands matches Some(c) ==> {
            &&& c.target_generation == post.surface.generation
            &&& c.image_index < post.targets@.len()
            &&& post.targets@[c.image_index as int].surface_generation
                == post.surface.generation
        },
{
}

/// Resize idempotence: rebuilding the surface twice in a row at the same
/// extent yields functionally equivalent target batches — same count, same
/// per-image extent — and the second rebuild does not change the viewport's
/// dimensions again.
pub proof fn lemma_resize_idempotent(
    s: Surface,
    e: Extent,
    render_pass: u64,
    v0: Viewport,
    t1: Seq<FrameTarget>,
    t2: Seq<FrameTarget>,
    v1: Viewport,
    v2: Viewport,
)
    requires
        s.generation + 2 <= u64::MAX,
        targets_for(s.recreated(e), render_pass, t1),
        v1 == viewport_fitted(v0, e),
        targets_for(s.recreated(e).recreated(e), render_pass, t2),
        v2 == viewport_fitted(v1, e),
    ensures
        t2.len() == t1.len(),
        forall|i: int| 0 <= i < t1.len() ==> (#[trigger] t2[i]).image_index == t1[i].image_index,
        forall|i: int| 0 <= i < t1.len() ==> (#[trigger] t2[i]).extent == t1[i].extent,
        v2 == v1,
{
}

/// Out-of-date recovery: the tick whose acquire reports an out-of-date
/// surface submits and presents nothing, and the next tick attempts the
/// rebuild before any acquire — an image is acquired in it only once the
/// rebuild has succeeded.
pub proof fn lemma_out_of_date_recovery(
    pre: FrameLoop,
    env1: TickEnv,
    mid: FrameLoop,
    r1: TickReport,
    env2: TickEnv,
    post: FrameLoop,
    r2: TickReport,
)
    requires
        pre.wf(),
        pre.active(),
        env1.acquire is OutOfDate,
        tick_rel(pre, env1, mid, r1),
        tick_rel(mid, env2, post, r2),
    ensures
        no_frame_work(r1),
        mid.resize_requested,
        r2.recreate_attempted,
        r2.acquired is Some ==> r2.recreated,
{
}

/// Flush recovery: a flush failure on submit leaves the pending token
/// trivially satisfied and the resize flag set — the loop recovers on the
/// next tick instead of terminating.
pub proof fn lemma_flush_recovery(pre: FrameLoop, env: TickEnv, post: FrameLoop, r: TickReport)
    requires
        pre.wf(),
        tick_rel(pre, env, post, r),
        env.submit is Flush,
        r.submitted is Some,
    ensures
        post.sync.pending == Some(Token::Ready),
        post.resize_requested,
        r.status == TickStatus::Aborted(TickError::Stale),
        !(r.status == TickStatus::Aborted(TickError::Fatal)),
{
}

/// Close preemption: a close request arriving mid-tick means nothing is
/// recorded, submitted or presented in that tick, and — as soon as the tick
/// reaches its next check — the loop is in the terminal state.
pub proof fn lemma_close_preemption(pre: FrameLoop, env: TickEnv, post: FrameLoop, r: TickReport)
    requires
        pre.wf(),
        pre.active(),
        env.close_during_acquire,
        tick_rel(pre, env, post, r),
    ensures
        r.commands is None,
        r.submitted is None,
        !r.presented,
        r.acquired is Some ==> {
            &&& post.state is Exiting
            &&& post.close_requested
            &&& r.status == TickStatus::Closed
        },
{
}

} // verus!
