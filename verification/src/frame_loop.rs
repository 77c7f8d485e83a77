//! The driving state machine. Once per scheduling tick, while running, it
//! reclaims sync bookkeeping, rebuilds a stale surface before any acquire,
//! acquires an image, records the fixed command sequence, submits and
//! presents, and recovers from the platform's transient and structural
//! failures. The platform's answers for the tick come in as a [`TickEnv`];
//! everything the tick did is returned as a [`TickReport`], and the whole
//! transition is pinned by [`tick_rel`].

use vstd::prelude::*;

use crate::resources::FrameTarget;
use crate::resources::Viewport;
use crate::resources::rebuild_targets;
use crate::resources::targets_for;
use crate::resources::viewport_fitted;
use crate::surface::AcquireError;
use crate::surface::AcquireOutcome;
use crate::surface::AcquireSignal;
use crate::surface::Extent;
use crate::surface::RecreateError;
use crate::surface::RecreateOutcome;
use crate::surface::Surface;
use crate::sync_tracker::JoinedCondition;
use crate::sync_tracker::Submission;
use crate::sync_tracker::SubmitError;
use crate::sync_tracker::SubmitOutcome;
use crate::sync_tracker::SyncTracker;
use crate::sync_tracker::Token;

verus! {

/// The loop's states. `Exiting` is terminal and entered only on an external
/// close request, never on a recoverable error.
#[derive(Clone, Copy, PartialEq, Eq, Structural, Debug)]
pub enum LoopState {
    Running,
    /// A rebuild is owed; entered while the resize is handled and kept
    /// across ticks while the platform reports the extent unsupported.
    AwaitingResize,
    Exiting,
}

/// Why a tick ended without a full cycle.
#[derive(Clone, Copy, PartialEq, Eq, Structural, Debug)]
pub enum TickError {
    /// The requested extent is temporarily unsupported: skip the tick,
    /// retry on the next one.
    Transient,
    /// The surface went stale (out of date on acquire, flush failure on
    /// submit): a rebuild was scheduled for the next tick.
    Stale,
    /// Unrecoverable device failure: the driver must terminate the process.
    Fatal,
}

/// How a tick ended.
#[derive(Clone, Copy, PartialEq, Eq, Structural, Debug)]
pub enum TickStatus {
    /// A full acquire, submit and present cycle was carried out.
    Completed,
    /// The tick ended early; the error says how the next tick recovers.
    Aborted(TickError),
    /// A close request preempted the tick; the loop is in its terminal
    /// state.
    Closed,
}

/// The platform's answers for one tick. A driver fills it from the real
/// window and device; a test writes the answers it wants to simulate. Only
/// the answers the tick actually gets to ask for are read.
#[derive(Clone, Copy, PartialEq, Eq, Structural, Debug)]
pub struct TickEnv {
    /// The window's drawable size at the moment of this tick; a rebuild
    /// sizes the new chain to it.
    pub window_extent: Extent,
    /// Answer to a surface rebuild.
    pub recreate: RecreateOutcome,
    /// Answer to the blocking image acquisition.
    pub acquire: AcquireOutcome,
    /// Answer to the submission and presentation request.
    pub submit: SubmitOutcome,
    /// A close request was delivered while the tick was blocked in acquire;
    /// it preempts the rest of the tick.
    pub close_during_acquire: bool,
}

/// The fixed command sequence of one frame, recorded against the target of
/// the acquired image: begin the render pass with the fixed clear color, set
/// the viewport, bind the fixed pipeline and vertex data, issue one
/// non-indexed draw, end the render pass. (The clear color and the pipeline
/// handle never vary and stay with the driver.)
#[derive(Clone, Copy, PartialEq, Eq, Structural, Debug)]
pub struct CommandSequence {
    /// Which image of the chain the render pass draws into.
    pub image_index: usize,
    /// Generation of the surface the referenced target was derived from.
    pub target_generation: u64,
    /// The viewport set for the draw.
    pub viewport: Viewport,
    /// Vertex count of the single non-indexed draw.
    pub vertex_count: u32,
}

/// Everything one call of [`FrameLoop::tick`] did, in the order the tick
/// does it: cleanup, rebuild, acquire, record, submit, present.
#[derive(Clone, Copy, PartialEq, Eq, Debug)]
pub struct TickReport {
    pub status: TickStatus,
    /// Sync bookkeeping was reclaimed this tick.
    pub cleaned: bool,
    /// A surface rebuild was attempted this tick.
    pub recreate_attempted: bool,
    /// The rebuild succeeded and the targets were replaced.
    pub recreated: bool,
    /// Index of the image acquired this tick.
    pub acquired: Option<usize>,
    /// The command sequence recorded this tick.
    pub commands: Option<CommandSequence>,
    /// The submission handed to the queue this tick.
    pub submitted: Option<Submission>,
    /// Presentation of the acquired image was acknowledged.
    pub presented: bool,
}

/// The report of a tick that did no frame work at all.
pub open spec fn report_idle(status: TickStatus) -> TickReport {
    TickReport {
        status,
        cleaned: false,
        recreate_attempted: false,
        recreated: false,
        acquired: None,
        commands: None,
        submitted: None,
        presented: false,
    }
}

/// No image was acquired, nothing was recorded, submitted or presented.
pub open spec fn no_frame_work(r: TickReport) -> bool {
    &&& r.acquired is None
    &&& r.commands is None
    &&& r.submitted is None
    &&& !r.presented
}

/// The frame loop: the resources it owns exclusively, the two event flags
/// the windowing collaborator writes, and the fixed handles the setup
/// collaborator supplied once at start-up.
#[derive(Clone, Debug)]
pub struct FrameLoop {
    pub state: LoopState,
    /// Set by the windowing collaborator on a resize event, by a suboptimal
    /// acquire, and by structural failures; cleared by a successful rebuild.
    pub resize_requested: bool,
    /// Set by the windowing collaborator on a close request; never cleared.
    pub close_requested: bool,
    /// The current presentation surface.
    pub surface: Surface,
    /// One render target per image of the current chain.
    pub targets: Vec<FrameTarget>,
    /// The viewport command recording reads.
    pub viewport: Viewport,
    /// The in-flight GPU timeline.
    pub sync: SyncTracker,
    /// Fixed handle of the render-pass layout, from the setup collaborator.
    pub render_pass: u64,
    /// Vertex count of the fixed vertex data, from the setup collaborator.
    pub vertex_count: u32,
    /// Source of fresh acquire-signal identifiers.
    pub next_signal: u64,
}

/// The surface, targets and viewport were not touched.
pub open spec fn resources_unchanged(pre: FrameLoop, post: FrameLoop) -> bool {
    &&& post.surface == pre.surface
    &&& post.targets == pre.targets
    &&& post.viewport == pre.viewport
}

/// The fixed start-up handles never change.
pub open spec fn fixed_unchanged(pre: FrameLoop, post: FrameLoop) -> bool {
    &&& post.render_pass == pre.render_pass
    &&& post.vertex_count == pre.vertex_count
}

impl FrameLoop {
    /// Validity of the owned resources: the target batch is exactly the one
    /// derived from the current surface, the viewport follows the surface
    /// extent, the sync slot is filled between ticks, and the
    /// awaiting-resize state always has the resize flag behind it.
    pub open spec fn wf(self) -> bool {
        &&& self.surface.wf()
        &&& targets_for(self.surface, self.render_pass, self.targets@)
        &&& self.viewport.width == self.surface.extent.width
        &&& self.viewport.height == self.surface.extent.height
        &&& self.sync.wf()
        &&& self.state is AwaitingResize ==> self.resize_requested
    }

    /// The identifier counters have room left. A fresh identifier is taken
    /// per rebuild, per acquisition and per submission, so this bounds
    /// nothing but the machine's word size.
    pub open spec fn counters_ok(self) -> bool {
        &&& self.surface.generation < u64::MAX
        &&& self.sync.next_id < u64::MAX
        &&& self.next_signal < u64::MAX
    }

    /// The loop still does per-tick work: no close was requested and the
    /// terminal state was not reached.
    pub open spec fn active(self) -> bool {
        &&& !self.close_requested
        &&& !(self.state is Exiting)
    }
}

/// A tick that begins closed, or on the terminal state: it enters `Exiting`
/// and does nothing else.
pub open spec fn closed_rel(pre: FrameLoop, post: FrameLoop, r: TickReport) -> bool {
    &&& post.state is Exiting
    &&& post.resize_requested == pre.resize_requested
    &&& post.close_requested == pre.close_requested
    &&& resources_unchanged(pre, post)
    &&& post.sync == pre.sync
    &&& post.next_signal == pre.next_signal
    &&& r == report_idle(TickStatus::Closed)
}

/// The submit-and-present step, reached with the image at `image_index`
/// acquired. What is recorded references the target of the current surface
/// generation; the submission waits on the token that was pending when the
/// tick began, joined with this tick's acquire signal.
pub open spec fn submit_rel(
    pre: FrameLoop,
    env: TickEnv,
    post: FrameLoop,
    r: TickReport,
    image_index: usize,
    suboptimal: bool,
) -> bool {
    &&& r.commands == Some(
        CommandSequence {
            image_index,
            target_generation: post.surface.generation,
            viewport: post.viewport,
            vertex_count: pre.vertex_count,
        },
    )
    &&& (pre.sync.pending matches Some(prev) && r.submitted == Some(
        Submission {
            id: pre.sync.next_id,
            waits: JoinedCondition { prev, acquire_signal: pre.next_signal },
        },
    ))
    &&& post.state is Running
    &&& !post.close_requested
    &&& !post.sync.cleaned
    &&& match env.submit {
        SubmitOutcome::Completed => {
            &&& r.status == TickStatus::Completed
            &&& r.presented
            &&& post.sync.pending == Some(Token::Pending { id: pre.sync.next_id })
            &&& post.sync.next_id == pre.sync.next_id + 1
            &&& post.resize_requested == suboptimal
        },
        SubmitOutcome::Flush => {
            &&& r.status == TickStatus::Aborted(TickError::Stale)
            &&& !r.presented
            &&& post.sync.pending == Some(Token::Ready)
            &&& post.sync.next_id == pre.sync.next_id
            &&& post.resize_requested
        },
        SubmitOutcome::DeviceLost => {
            &&& r.status == TickStatus::Aborted(TickError::Fatal)
            &&& !r.presented
            &&& post.sync.pending == Some(Token::Ready)
            &&& post.sync.next_id == pre.sync.next_id
            &&& post.resize_requested == suboptimal
        },
    }
}

/// The acquire step and everything after it. The surface, targets and
/// viewport of `post` are pinned by the caller (unchanged, or just rebuilt);
/// acquisition happens strictly after any rebuild, never against a surface
/// known to be stale.
pub open spec fn acquire_rel(pre: FrameLoop, env: TickEnv, post: FrameLoop, r: TickReport) -> bool {
    match env.acquire {
        AcquireOutcome::OutOfDate => {
            &&& r.status == TickStatus::Aborted(TickError::Stale)
            &&& no_frame_work(r)
            &&& post.state is Running
            &&& post.resize_requested
            &&& !post.close_requested
            &&& post.sync == pre.sync.after_cleanup()
            &&& post.next_signal == pre.next_signal
        },
        AcquireOutcome::DeviceLost => {
            &&& r.status == TickStatus::Aborted(TickError::Fatal)
            &&& no_frame_work(r)
            &&& post.state is Running
            &&& !post.resize_requested
            &&& !post.close_requested
            &&& post.sync == pre.sync.after_cleanup()
            &&& post.next_signal == pre.next_signal
        },
        AcquireOutcome::Ready { image_index, suboptimal } => {
            &&& r.acquired == Some(image_index)
            &&& post.next_signal == pre.next_signal + 1
            &&& if env.close_during_acquire {
                &&& r.status == TickStatus::Closed
                &&& r.commands is None
                &&& r.submitted is None
                &&& !r.presented
                &&& post.state is Exiting
                &&& post.close_requested
                &&& post.resize_requested == suboptimal
                &&& post.sync == pre.sync.after_cleanup()
            } else {
                submit_rel(pre, env, post, r, image_index, suboptimal)
            }
        },
    }
}

/// The resize step and everything after it, reached with the resize flag
/// set: rebuild first, and only then acquire. A temporarily unsupported
/// extent skips the tick and keeps the rebuild owed; a successful rebuild
/// replaces surface, targets and viewport wholesale before the acquire.
pub open spec fn resize_rel(pre: FrameLoop, env: TickEnv, post: FrameLoop, r: TickReport) -> bool {
    &&& r.recreate_attempted
    &&& match env.recreate {
        RecreateOutcome::ExtentUnsupported => {
            &&& !r.recreated
            &&& r.status == TickStatus::Aborted(TickError::Transient)
            &&& no_frame_work(r)
            &&& post.state is AwaitingResize
            &&& post.resize_requested
            &&& post.close_requested == pre.close_requested
            &&& resources_unchanged(pre, post)
            &&& post.sync == pre.sync.after_cleanup()
            &&& post.next_signal == pre.next_signal
        },
        RecreateOutcome::DeviceLost => {
            &&& !r.recreated
            &&& r.status == TickStatus::Aborted(TickError::Fatal)
            &&& no_frame_work(r)
            &&& post.state is AwaitingResize
            &&& post.resize_requested
            &&& post.close_requested == pre.close_requested
            &&& resources_unchanged(pre, post)
            &&& post.sync == pre.sync.after_cleanup()
            &&& post.next_signal == pre.next_signal
        },
        RecreateOutcome::Success => {
            &&& r.recreated
            &&& post.surface == pre.surface.recreated(env.window_extent)
            &&& targets_for(post.surface, pre.render_pass, post.targets@)
            &&& post.viewport == viewport_fitted(pre.viewport, env.window_extent)
            &&& acquire_rel(pre, env, post, r)
        },
    }
}

/// The whole transition of one tick: what `post` and `r` are, for every
/// `pre` and every answer of the platform.
pub open spec fn tick_rel(pre: FrameLoop, env: TickEnv, post: FrameLoop, r: TickReport) -> bool {
    &&& fixed_unchanged(pre, post)
    &&& if !pre.active() {
        closed_rel(pre, post, r)
    } else {
        &&& r.cleaned
        &&& if pre.resize_requested {
            resize_rel(pre, env, post, r)
        } else {
            &&& !r.recreate_attempted
            &&& !r.recreated
            &&& resources_unchanged(pre, post)
            &&& acquire_rel(pre, env, post, r)
        }
    }
}

impl FrameLoop {
    /// Sets up the loop around a freshly created surface: derives the first
    /// target batch, fits the viewport, and starts the timeline on the
    /// already-complete token.
    pub fn new(surface: Surface, render_pass: u64, vertex_count: u32, viewport: Viewport) -> (fl:
        FrameLoop)
        requires
            surface.wf(),
        ensures
            fl.state is Running,
            !fl.resize_requested,
            !fl.close_requested,
            fl.surface == surface,
            targets_for(surface, render_pass, fl.targets@),
            fl.viewport == viewport_fitted(viewport, surface.extent),
            fl.sync == (SyncTracker { pending: Some(Token::Ready), next_id: 0, cleaned: false }),
            fl.render_pass == render_pass,
            fl.vertex_count == vertex_count,
            fl.next_signal == 0,
            fl.wf(),
    {
        let mut vp = viewport;
        let targets = rebuild_targets(&surface, render_pass, &mut vp);
        FrameLoop {
            state: LoopState::Running,
            resize_requested: false,
            close_requested: false,
            surface,
            targets,
            viewport: vp,
            sync: SyncTracker::new(),
            render_pass,
            vertex_count,
            next_signal: 0,
        }
    }

    /// The windowing collaborator delivered a resize event: the surface is
    /// stale and the next tick rebuilds it (to the window's extent at that
    /// moment) before acquiring.
    pub fn on_resized(&mut self)
        ensures
            final(self).resize_requested,
            final(self).state == old(self).state,
            final(self).close_requested == old(self).close_requested,
            resources_unchanged(*old(self), *final(self)),
            fixed_unchanged(*old(self), *final(self)),
            final(self).sync == old(self).sync,
            final(self).next_signal == old(self).next_signal,
            old(self).wf() ==> final(self).wf(),
    {
        self.resize_requested = true;
    }

    /// The windowing collaborator delivered a close request: the next tick
    /// boundary enters the terminal state, and no further submission or
    /// presentation is issued.
    pub fn on_close_requested(&mut self)
        ensures
            final(self).close_requested,
            final(self).state == old(self).state,
            final(self).resize_requested == old(self).resize_requested,
            resources_unchanged(*old(self), *final(self)),
            fixed_unchanged(*old(self), *final(self)),
            final(self).sync == old(self).sync,
            final(self).next_signal == old(self).next_signal,
            old(self).wf() ==> final(self).wf(),
    {
        self.close_requested = true;
    }

    /// One tick of the loop. `env` holds the platform's answers; the tick
    /// asks only for those it reaches. The returned report and the new state
    /// are pinned, for every input, by [`tick_rel`].
    pub fn tick(&mut self, env: &TickEnv) -> (r: TickReport)
        requires
            old(self).wf(),
            old(self).counters_ok(),
            env.acquire matches AcquireOutcome::Ready { image_index, .. } ==> image_index < old(
                self,
            ).surface.image_count,
        ensures
            tick_rel(*old(self), *env, *final(self), r),
            final(self).wf(),
    {
        // A close request, or the terminal state, preempts the whole tick.
        if self.close_requested || self.state == LoopState::Exiting {
            self.state = LoopState::Exiting;
            return TickReport {
                status: TickStatus::Closed,
                cleaned: false,
                recreate_attempted: false,
                recreated: false,
                acquired: None,
                commands: None,
                submitted: None,
                presented: false,
            };
        }
        // Reclaim bookkeeping of completed GPU work before the previous
        // token is used.
        self.sync.cleanup();
        // Rebuild a stale surface before any acquire against it.
        let resized: bool = self.resize_requested;
        if resized {
            self.state = LoopState::AwaitingResize;
            match self.surface.recreate(env.window_extent, env.recreate) {
                Ok(s) => {
                    self.surface = s;
                    self.targets = rebuild_targets(
                        &self.surface,
                        self.render_pass,
                        &mut self.viewport,
                    );
                    self.resize_requested = false;
                    self.state = LoopState::Running;
                },
                Err(RecreateError::ExtentUnsupported) => {
                    // Transient: skip this tick, retry on the next one.
                    return TickReport {
                        status: TickStatus::Aborted(TickError::Transient),
                        cleaned: true,
                        recreate_attempted: true,
                        recreated: false,
                        acquired: None,
                        commands: None,
                        submitted: None,
                        presented: false,
                    };
                },
                Err(RecreateError::Fatal) => {
                    return TickReport {
                        status: TickStatus::Aborted(TickError::Fatal),
                        cleaned: true,
                        recreate_attempted: true,
                        recreated: false,
                        acquired: None,
                        commands: None,
                        submitted: None,
                        presented: false,
                    };
                },
            }
        }
        // Acquire the next presentable image.
        let signal = AcquireSignal { id: self.next_signal };
        let acq = match self.surface.acquire_next(env.acquire, signal) {
            Ok(acq) => acq,
            Err(AcquireError::OutOfDate) => {
                // Structural: rebuild next tick; no submit, no present now.
                self.resize_requested = true;
                return TickReport {
                    status: TickStatus::Aborted(TickError::Stale),
                    cleaned: true,
                    recreate_attempted: resized,
                    recreated: resized,
                    acquired: None,
                    commands: None,
                    submitted: None,
                    presented: false,
                };
            },
            Err(AcquireError::Fatal) => {
                return TickReport {
                    status: TickStatus::Aborted(TickError::Fatal),
                    cleaned: true,
                    recreate_attempted: resized,
                    recreated: resized,
                    acquired: None,
                    commands: None,
                    submitted: None,
                    presented: false,
                };
            },
        };
        self.next_signal = self.next_signal + 1;
        if acq.suboptimal {
            // Usable this tick; rebuild afterwards.
            self.resize_requested = true;
        }
        if env.close_during_acquire {
            // A close request arrived mid-tick: no submit, no present.
            self.close_requested = true;
            self.state = LoopState::Exiting;
            return TickReport {
                status: TickStatus::Closed,
                cleaned: true,
                recreate_attempted: resized,
                recreated: resized,
                acquired: Some(acq.image_index),
                commands: None,
                submitted: None,
                presented: false,
            };
        }
        // Record the fixed command sequence against the acquired target.
        let target = &self.targets[acq.image_index];
        let commands = CommandSequence {
            image_index: acq.image_index,
            target_generation: target.surface_generation,
            viewport: self.viewport,
            vertex_count: self.vertex_count,
        };
        // Join the previous token with the acquire signal, submit, present.
        let cond = self.sync.join(acq.signal);
        let attempted = Submission { id: self.sync.next_id, waits: cond };
        match self.sync.submit(cond, env.submit) {
            Ok(submission) => TickReport {
                status: TickStatus::Completed,
                cleaned: true,
                recreate_attempted: resized,
                recreated: resized,
                acquired: Some(acq.image_index),
                commands: Some(commands),
                submitted: Some(submission),
                presented: true,
            },
            Err(SubmitError::Flush) => {
                // Structural: the surface is gone; the tracker was reset to
                // the already-complete token, rebuild next tick.
                self.resize_requested = true;
                TickReport {
                    status: TickStatus::Aborted(TickError::Stale),
                    cleaned: true,
                    recreate_attempted: resized,
                    recreated: resized,
                    acquired: Some(acq.image_index),
                    commands: Some(commands),
                    submitted: Some(attempted),
                    presented: false,
                }
            },
            Err(SubmitError::Fatal) => TickReport {
                status: TickStatus::Aborted(TickError::Fatal),
                cleaned: true,
                recreate_attempted: resized,
                recreated: resized,
                acquired: Some(acq.image_index),
                commands: Some(commands),
                submitted: Some(attempted),
                presented: false,
            },
        }
    }
}

} // verus!
