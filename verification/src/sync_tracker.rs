//! Tracking of the in-flight GPU timeline: a single replaceable token that
//! stands for all outstanding GPU work, the join of that token with an
//! acquisition's readiness signal, and the submission step that turns the
//! joined condition into the next token.

use vstd::prelude::*;

use crate::surface::AcquireSignal;

verus! {

/// The wait condition of one submission: the previous in-flight token joined
/// with the signal that the acquired image is safe to write. GPU-side work
/// may not start before both are satisfied.
#[derive(Clone, Copy, PartialEq, Eq, Structural, Debug)]
pub struct JoinedCondition {
    /// The token that was pending before this submission.
    pub prev: Token,
    /// Identifier of the readiness signal of this tick's acquisition.
    pub acquire_signal: u64,
}

/// "Work not yet known to have completed on the GPU". At most one token is
/// live at a time; on every recoverable presentation failure it is reset to
/// the already-complete `Ready` so the loop never waits on a token tied to a
/// dead surface.
#[derive(Clone, Copy, PartialEq, Eq, Structural, Debug)]
pub enum Token {
    /// Trivially satisfied: no outstanding work.
    Ready,
    /// The submission with this identifier is not yet known to have
    /// completed.
    Pending { id: u64 },
}

/// The record of one submission handed to the queue: commands enqueued after
/// `waits` is satisfied, followed by a presentation request that waits on
/// command completion.
#[derive(Clone, Copy, PartialEq, Eq, Structural, Debug)]
pub struct Submission {
    /// Identifier of the submission, fresh for every accepted one.
    pub id: u64,
    /// What the GPU-side start of this submission is ordered after.
    pub waits: JoinedCondition,
}

/// The platform's answer to a submission followed by a presentation request.
#[derive(Clone, Copy, PartialEq, Eq, Structural, Debug)]
pub enum SubmitOutcome {
    /// Commands and presentation request were accepted by the queue.
    Completed,
    /// The flush failed because the surface is gone; recoverable by a
    /// rebuild on the next tick.
    Flush,
    /// Any other submission failure; the process cannot recover from it.
    DeviceLost,
}

/// Failure of a submission.
#[derive(Clone, Copy, PartialEq, Eq, Structural, Debug)]
pub enum SubmitError {
    /// Structural: the surface is gone; rebuild it next tick.
    Flush,
    /// The caller must terminate.
    Fatal,
}

/// The in-flight timeline. The single `pending` slot is the whole record of
/// outstanding GPU work; it is `None` only between taking the previous token
/// (`join`) and storing its successor (`submit`) within one tick.
#[derive(Clone, Copy, PartialEq, Eq, Structural, Debug)]
pub struct SyncTracker {
    /// The one in-flight token, or `None` mid-tick between join and submit.
    pub pending: Option<Token>,
    /// Identifier the next accepted submission will get.
    pub next_id: u64,
    /// Completed-work bookkeeping has been reclaimed since the last
    /// submission.
    pub cleaned: bool,
}

impl SyncTracker {
    /// Between ticks the slot is always filled.
    pub open spec fn wf(self) -> bool {
        self.pending is Some
    }

    /// How many tokens of outstanding work exist: the `Ready` token counts
    /// for none.
    pub open spec fn pending_count(self) -> nat {
        match self.pending {
            Some(Token::Pending { .. }) => 1nat,
            _ => 0nat,
        }
    }

    /// `self` after bookkeeping cleanup and nothing else.
    pub open spec fn after_cleanup(self) -> SyncTracker {
        SyncTracker { cleaned: true, ..self }
    }

    /// Starts the timeline with the already-complete token, as the loop does
    /// before its first submission.
    pub fn new() -> (t: SyncTracker)
        ensures
            t == (SyncTracker { pending: Some(Token::Ready), next_id: 0, cleaned: false }),
    {
        SyncTracker { pending: Some(Token::Ready), next_id: 0, cleaned: false }
    }

    /// Reclaims CPU-side bookkeeping for GPU work that has already completed.
    /// Called at the start of every tick, before the previous token is used,
    /// to bound backlog growth. Leaves the token itself untouched.
    pub fn cleanup(&mut self)
        ensures
            *final(self) == old(self).after_cleanup(),
    {
        self.cleaned = true;
    }

    /// Takes the pending token out of its slot and joins it with the
    /// acquisition's readiness signal: the precondition of the next
    /// submission, which may not start before both are satisfied.
    pub fn join(&mut self, signal: AcquireSignal) -> (c: JoinedCondition)
        requires
            old(self).wf(),
            old(self).cleaned,
        ensures
            c == (JoinedCondition { prev: old(self).pending->0, acquire_signal: signal.id }),
            final(self).pending is None,
            final(self).next_id == old(self).next_id,
            final(self).cleaned == old(self).cleaned,
    {
        let prev = self.pending.take().unwrap();
        JoinedCondition { prev, acquire_signal: signal.id }
    }

    /// Enqueues the recorded commands to execute after `cond` is satisfied,
    /// then a presentation request that waits on command completion.
    /// `outcome` is the queue's answer. On success the accepted submission is
    /// returned and its token — which stands for both command execution and
    /// presentation — takes the pending slot. A `Flush` failure (surface
    /// gone) is recoverable: the slot is reset to the already-complete token
    /// so the next tick cannot deadlock on a token tied to a dead surface.
    /// Any other failure is fatal to the caller; the slot is reset the same
    /// way.
    pub fn submit(&mut self, cond: JoinedCondition, outcome: SubmitOutcome) -> (r: Result<
        Submission,
        SubmitError,
    >)
        requires
            old(self).pending is None,
            old(self).next_id < u64::MAX,
        ensures
            final(self).wf(),
            !final(self).cleaned,
            outcome is Completed ==> {
                &&& r == Ok::<Submission, SubmitError>(
                    Submission { id: old(self).next_id, waits: cond },
                )
                &&& final(self).pending == Some(Token::Pending { id: old(self).next_id })
                &&& final(self).next_id == old(self).next_id + 1
            },
            outcome is Flush ==> {
                &&& r == Err::<Submission, SubmitError>(SubmitError::Flush)
                &&& final(self).pending == Some(Token::Ready)
                &&& final(self).next_id == old(self).next_id
            },
            outcome is DeviceLost ==> {
                &&& r == Err::<Submission, SubmitError>(SubmitError::Fatal)
                &&& final(self).pending == Some(Token::Ready)
                &&& final(self).next_id == old(self).next_id
            },
    {
        self.cleaned = false;
        match outcome {
            SubmitOutcome::Completed => {
                let sub = Submission { id: self.next_id, waits: cond };
                self.pending = Some(Token::Pending { id: sub.id });
                self.next_id = self.next_id + 1;
                Ok(sub)
            },
            SubmitOutcome::Flush => {
                self.pending = Some(Token::Ready);
                Err(SubmitError::Flush)
            },
            SubmitOutcome::DeviceLost => {
                self.pending = Some(Token::Ready);
                Err(SubmitError::Fatal)
            },
        }
    }
}

} // verus!
