//! The decisions of the acquisition loop. The caller performs each action
//! (wait for a frame pair, deliver a point set, shut down) and reports what
//! happened; the loop answers with the next action.

use vstd::prelude::*;

verus! {

/// The camera pipeline's state; acquisition is valid only once started.
#[derive(Clone, Copy, Debug, PartialEq, Eq, Structural)]
pub enum PipelineState {
    Created,
    Started,
    Stopped,
}

/// What one wait for a frame pair gave.
#[derive(Clone, Copy, Debug, PartialEq, Eq, Structural)]
pub enum Outcome {
    /// Both frames of a synchronized pair arrived.
    Frames,
    /// No pair within the timeout: retry, not a failure.
    Timeout,
    /// The pair lacked its color or its depth frame.
    MissingFrame,
    /// The device or pipeline failed.
    Fault,
}

/// What the caller does next.
#[derive(Clone, Copy, Debug, PartialEq, Eq, Structural)]
pub enum Action {
    /// Wait for the next frame pair.
    Acquire,
    /// Reconstruct the point set of the pair just acquired and deliver it.
    Deliver,
    /// Stop the pipeline and close the delivery slot.
    Finish,
}

#[derive(Clone, Copy, Debug, PartialEq, Eq, Structural)]
pub enum LoopError {
    /// The operation is not valid in the loop's current state.
    InvalidState,
    /// A frame pair arrived incomplete.
    MissingFrame,
    /// The device or pipeline failed.
    AcquisitionFault,
}

/// The abstract state of the loop.
pub struct LoopView {
    pub state: PipelineState,
    /// Acquisition cycles used, timeouts included.
    pub cycle: nat,
    /// Cycles allowed in all.
    pub budget: nat,
    /// Point sets the delivery slot accepted.
    pub delivered: nat,
    /// A frame pair was acquired and its delivery not yet reported.
    pub awaiting: bool,
}

/// The loop may wait for another frame pair.
pub open spec fn may_acquire(v: LoopView) -> bool {
    v.state == PipelineState::Started && v.cycle < v.budget && !v.awaiting
}

/// The action that follows when no delivery is pending.
pub open spec fn next_action_of(v: LoopView) -> Action {
    if may_acquire(v) {
        Action::Acquire
    } else {
        Action::Finish
    }
}

/// The transition on an acquisition outcome, and the answer given.
pub open spec fn after_outcome(v: LoopView, o: Outcome) -> (LoopView, Result<Action, LoopError>) {
    if !may_acquire(v) {
        (v, Err(LoopError::InvalidState))
    } else {
        match o {
            Outcome::Timeout => {
                let w = LoopView { cycle: v.cycle + 1, ..v };
                (w, Ok(next_action_of(w)))
            },
            Outcome::Frames => (LoopView { cycle: v.cycle + 1, awaiting: true, ..v }, Ok(Action::Deliver)),
            Outcome::MissingFrame => (
                LoopView { state: PipelineState::Stopped, ..v },
                Err(LoopError::MissingFrame),
            ),
            Outcome::Fault => (
                LoopView { state: PipelineState::Stopped, ..v },
                Err(LoopError::AcquisitionFault),
            ),
        }
    }
}

/// The state after `k` timeouts in a row.
pub open spec fn after_timeouts(v: LoopView, k: nat) -> LoopView
    decreases k,
{
    if k == 0 {
        v
    } else {
        after_outcome(after_timeouts(v, (k - 1) as nat), Outcome::Timeout).0
    }
}

pub struct AcquisitionLoop {
    state: PipelineState,
    cycle: u64,
    budget: u64,
    delivered: u64,
    awaiting: bool,
}

impl AcquisitionLoop {
    pub closed spec fn view(&self) -> LoopView {
        LoopView {
            state: self.state,
            cycle: self.cycle as nat,
            budget: self.budget as nat,
            delivered: self.delivered as nat,
            awaiting: self.awaiting,
        }
    }

    /// Counts stay ordered: every delivery belongs to a used cycle.
    pub open spec fn wf(&self) -> bool {
        &&& self.view().cycle <= self.view().budget
        &&& self.view().delivered + (if self.view().awaiting { 1int } else { 0 }) <= self.view().cycle
        &&& self.view().budget <= u64::MAX
    }

    /// A loop over a pipeline not yet started, allowed `budget` cycles.
    pub fn new(budget: u64) -> (l: AcquisitionLoop)
        ensures
            l.wf(),
            l.view() == (LoopView {
                state: PipelineState::Created,
                cycle: 0,
                budget: budget as nat,
                delivered: 0,
                awaiting: false,
            }),
    {
        AcquisitionLoop { state: PipelineState::Created, cycle: 0, budget, delivered: 0, awaiting: false }
    }

    /// The pipeline started streaming; fails unless it was just created.
    pub fn start(&mut self) -> (r: Result<(), LoopError>)
        requires
            old(self).wf(),
        ensures
            final(self).wf(),
            r is Ok <==> old(self).view().state == PipelineState::Created,
            r is Ok ==> final(self).view() == (LoopView { state: PipelineState::Started, ..old(self).view() }),
            r is Err ==> r == Err::<(), LoopError>(LoopError::InvalidState) && final(self).view() == old(self).view(),
    {
        if self.state == PipelineState::Created {
            self.state = PipelineState::Started;
            Ok(())
        } else {
            Err(LoopError::InvalidState)
        }
    }

    /// The next action while no delivery is pending: acquire while started and
    /// within budget, else finish.
    pub fn next_action(&self) -> (a: Action)
        ensures
            a == next_action_of(self.view()),
    {
        if self.state == PipelineState::Started && self.cycle < self.budget && !self.awaiting {
            Action::Acquire
        } else {
            Action::Finish
        }
    }

    /// Records an acquisition outcome. A timeout uses a cycle and goes on;
    /// a frame pair asks for delivery; an incomplete pair or a fault stops
    /// the pipeline and is returned as an error.
    pub fn on_outcome(&mut self, outcome: Outcome) -> (r: Result<Action, LoopError>)
        requires
            old(self).wf(),
        ensures
            final(self).wf(),
            (final(self).view(), r) == after_outcome(old(self).view(), outcome),
    {
        if !(self.state == PipelineState::Started && self.cycle < self.budget && !self.awaiting) {
            return Err(LoopError::InvalidState);
        }
        match outcome {
            Outcome::Timeout => {
                self.cycle = self.cycle + 1;
                Ok(self.next_action())
            },
            Outcome::Frames => {
                self.cycle = self.cycle + 1;
                self.awaiting = true;
                Ok(Action::Deliver)
            },
            Outcome::MissingFrame => {
                self.state = PipelineState::Stopped;
                Err(LoopError::MissingFrame)
            },
            Outcome::Fault => {
                self.state = PipelineState::Stopped;
                Err(LoopError::AcquisitionFault)
            },
        }
    }

    /// Records whether the delivery slot accepted the point set. A closed
    /// slot stops the loop.
    pub fn on_delivered(&mut self, accepted: bool) -> (a: Action)
        requires
            old(self).wf(),
        ensures
            final(self).wf(),
            !old(self).view().awaiting ==> final(self).view() == old(self).view() && a == next_action_of(old(self).view()),
            old(self).view().awaiting && accepted ==> final(self).view() == (LoopView {
                delivered: old(self).view().delivered + 1,
                awaiting: false,
                ..old(self).view()
            }) && a == next_action_of(final(self).view()),
            old(self).view().awaiting && !accepted ==> final(self).view() == (LoopView {
                state: PipelineState::Stopped,
                awaiting: false,
                ..old(self).view()
            }) && a == Action::Finish,
    {
        if !self.awaiting {
            return self.next_action();
        }
        self.awaiting = false;
        if accepted {
            self.delivered = self.delivered + 1;
            self.next_action()
        } else {
            self.state = PipelineState::Stopped;
            Action::Finish
        }
    }

    /// Stops the pipeline; nothing is acquired afterwards.
    pub fn stop(&mut self)
        requires
            old(self).wf(),
        ensures
            final(self).wf(),
            final(self).view() == (LoopView { state: PipelineState::Stopped, ..old(self).view() }),
    {
        self.state = PipelineState::Stopped;
    }

    pub fn state(&self) -> (r: PipelineState)
        ensures
            r == self.view().state,
    {
        self.state
    }

    pub fn cycle(&self) -> (r: u64)
        ensures
            r == self.view().cycle,
    {
        self.cycle
    }

    pub fn delivered(&self) -> (r: u64)
        ensures
            r == self.view().delivered,
    {
        self.delivered
    }
}

/// Timeouts in a row, while cycles remain, keep the loop running and
/// deliver nothing: only the cycle count moves.
pub proof fn lemma_timeouts_deliver_nothing(v: LoopView, k: nat)
    requires
        may_acquire(v),
        v.cycle + k <= v.budget,
    ensures
        after_timeouts(v, k) == (LoopView { cycle: v.cycle + k, ..v }),
    decreases k,
{
    if k > 0 {
        lemma_timeouts_deliver_nothing(v, (k - 1) as nat);
    }
}

/// Each timeout answered while cycles remain asks for another acquisition,
/// never for a delivery.
pub proof fn lemma_timeout_continues(v: LoopView)
    requires
        may_acquire(v),
        v.cycle + 1 < v.budget,
    ensures
        after_outcome(v, Outcome::Timeout).1 == Ok::<Action, LoopError>(Action::Acquire),
        after_outcome(v, Outcome::Timeout).0.delivered == v.delivered,
{
}

} // verus!
