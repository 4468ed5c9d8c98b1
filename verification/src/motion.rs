//! Playback of one movement goal: the arm's feedback, pauses and cancel checks
//! as a state machine.  The driver performs each action and hands back what
//! came of it; the machine decides what to do next.

use crate::timing::{feedback_plan, planned_step_millis, planned_steps};
use vstd::prelude::*;

verus! {

/// Joint positions of one arm.
pub type Position = [i32; 3];

/// How the playback of a goal ended.
#[derive(Debug, Clone, Copy, PartialEq, Eq)]
pub enum ActionOutcome {
    /// The arm reached the goal's target.
    Completed(Position),
    /// A cancel request stopped the arm at this position.
    Cancelled(Position),
    /// The action channel was closed.
    Closed,
}

/// What a check for a pending cancel request found.
#[derive(Debug, Clone, Copy, PartialEq, Eq)]
pub enum CancelPoll {
    /// No cancel request was waiting.
    NoRequest,
    /// A cancel request was received and accepted.
    Cancelled,
    /// The action channel was closed.
    Closed,
}

/// Where the playback of a goal stands.
#[derive(Debug, Clone, Copy, PartialEq, Eq)]
pub enum ExecStage {
    /// The start position is to be sent as feedback.
    EmitStart,
    /// A cancel check follows the start feedback.
    PollAfterStart,
    /// The pause before the current step is to be waited out.
    Sleeping,
    /// A cancel check follows the pause.
    PollBeforeMove,
    /// The position of the current step is to be computed.
    Interpolating,
    /// The position of the current step is to be sent as feedback.
    EmitMove,
    /// A cancel check follows the step's feedback.
    PollAfterMove,
    /// The playback is over.
    Finished(ActionOutcome),
}

/// What the driver reports back after performing an action.
#[derive(Debug, Clone, Copy, PartialEq, Eq)]
pub enum ExecEvent {
    /// The requested feedback was sent.
    FeedbackEmitted,
    /// The cancel check found this.
    CancelPolled(CancelPoll),
    /// The requested pause is over.
    Slept,
    /// The interpolated position of the current step.
    Interpolated(Position),
}

/// What the driver is to do next.
#[derive(Debug, Clone, Copy, PartialEq, Eq)]
pub enum ExecAction {
    /// Send this position as feedback.
    EmitFeedback(Position),
    /// Check, without waiting, for a cancel request.
    PollCancel,
    /// Wait this many milliseconds.
    Sleep(u64),
    /// Compute the position at fraction `step / steps` of the way from start to target.
    Interpolate { step: u32, steps: u32 },
    /// The playback is over with this outcome.
    Finish(ActionOutcome),
}

/// The playback of one goal from `start` to `target` over `duration_ms`.
#[derive(Debug, Clone, Copy, PartialEq, Eq)]
pub struct GoalExecution {
    pub start: Position,
    pub target: Position,
    pub duration_ms: u64,
    /// Number of steps of the plan (0 until the plan is made).
    pub steps: u32,
    /// Pause before each step, in milliseconds (0 until the plan is made).
    pub step_ms: u64,
    /// The step in progress, from 1 to `steps` (0 until the plan is made).
    pub step: u32,
    /// The last position sent, or about to be sent, as feedback.
    pub current: Position,
    pub stage: ExecStage,
}

/// The stages in which a step of the plan is in progress.
pub open spec fn is_moving(stage: ExecStage) -> bool {
    match stage {
        ExecStage::Sleeping | ExecStage::PollBeforeMove | ExecStage::Interpolating
        | ExecStage::EmitMove | ExecStage::PollAfterMove => true,
        _ => false,
    }
}

impl GoalExecution {
    /// Well-formedness: while a step is in progress it lies within the plan,
    /// which is the plan of the goal's duration; before the first step the
    /// arm stands at the start; a completed goal reports its target and a
    /// cancelled one the last position sent.
    pub open spec fn wf(self) -> bool {
        &&& is_moving(self.stage) ==> {
            &&& 1 <= self.step <= self.steps
            &&& self.steps == planned_steps(self.duration_ms as u128)
            &&& self.step_ms == planned_step_millis(self.duration_ms as u128)
        }
        &&& (self.stage is EmitStart || self.stage is PollAfterStart) ==> self.current == self.start
        &&& (self.stage matches ExecStage::Finished(ActionOutcome::Completed(p)) ==> p == self.target)
        &&& (self.stage matches ExecStage::Finished(ActionOutcome::Cancelled(p)) ==> p
            == self.current)
    }

    /// The events that answer the action of the current stage.  After the
    /// first cancel check the plan is made, so its step count must not
    /// truncate to zero there.
    pub open spec fn accepts(self, event: ExecEvent) -> bool {
        match self.stage {
            ExecStage::EmitStart | ExecStage::EmitMove => event is FeedbackEmitted,
            ExecStage::PollAfterStart => event matches ExecEvent::CancelPolled(poll) && (poll
                is NoRequest ==> planned_steps(self.duration_ms as u128) != 0),
            ExecStage::PollBeforeMove | ExecStage::PollAfterMove => event is CancelPolled,
            ExecStage::Sleeping => event is Slept,
            ExecStage::Interpolating => event is Interpolated,
            ExecStage::Finished(_) => false,
        }
    }

    /// This playback with its stage replaced.
    pub open spec fn with_stage(self, stage: ExecStage) -> GoalExecution {
        GoalExecution { stage, ..self }
    }

    /// The playback after `event` answered the current stage's action.
    pub open spec fn next_spec(self, event: ExecEvent) -> GoalExecution {
        match self.stage {
            ExecStage::EmitStart => self.with_stage(ExecStage::PollAfterStart),
            ExecStage::PollAfterStart => match event {
                ExecEvent::CancelPolled(CancelPoll::Cancelled) => self.with_stage(
                    ExecStage::Finished(ActionOutcome::Cancelled(self.start)),
                ),
                ExecEvent::CancelPolled(CancelPoll::Closed) => self.with_stage(
                    ExecStage::Finished(ActionOutcome::Closed),
                ),
                _ => GoalExecution {
                    steps: planned_steps(self.duration_ms as u128),
                    step_ms: planned_step_millis(self.duration_ms as u128),
                    step: 1,
                    current: self.start,
                    stage: ExecStage::Sleeping,
                    ..self
                },
            },
            ExecStage::Sleeping => self.with_stage(ExecStage::PollBeforeMove),
            ExecStage::PollBeforeMove => match event {
                ExecEvent::CancelPolled(CancelPoll::Cancelled) => self.with_stage(
                    ExecStage::Finished(ActionOutcome::Cancelled(self.current)),
                ),
                ExecEvent::CancelPolled(CancelPoll::Closed) => self.with_stage(
                    ExecStage::Finished(ActionOutcome::Closed),
                ),
                _ => self.with_stage(ExecStage::Interpolating),
            },
            ExecStage::Interpolating => match event {
                ExecEvent::Interpolated(p) => GoalExecution {
                    current: p,
                    stage: ExecStage::EmitMove,
                    ..self
                },
                _ => self,
            },
            ExecStage::EmitMove => self.with_stage(ExecStage::PollAfterMove),
            ExecStage::PollAfterMove => match event {
                ExecEvent::CancelPolled(CancelPoll::Cancelled) => self.with_stage(
                    ExecStage::Finished(ActionOutcome::Cancelled(self.current)),
                ),
                ExecEvent::CancelPolled(CancelPoll::Closed) => self.with_stage(
                    ExecStage::Finished(ActionOutcome::Closed),
                ),
                _ => if self.step < self.steps {
                    GoalExecution { step: (self.step + 1) as u32, stage: ExecStage::Sleeping, ..self }
                } else {
                    self.with_stage(ExecStage::Finished(ActionOutcome::Completed(self.target)))
                },
            },
            ExecStage::Finished(_) => self,
        }
    }

    /// The action that the current stage asks for.
    pub open spec fn action_spec(self) -> ExecAction {
        match self.stage {
            ExecStage::EmitStart => ExecAction::EmitFeedback(self.start),
            ExecStage::PollAfterStart | ExecStage::PollBeforeMove
            | ExecStage::PollAfterMove => ExecAction::PollCancel,
            ExecStage::Sleeping => ExecAction::Sleep(self.step_ms),
            ExecStage::Interpolating => ExecAction::Interpolate { step: self.step, steps: self.steps },
            ExecStage::EmitMove => ExecAction::EmitFeedback(self.current),
            ExecStage::Finished(outcome) => ExecAction::Finish(outcome),
        }
    }

    /// Upper bound on the number of actions still to come before the playback
    /// finishes: five per remaining step, plus those of the current stage.
    pub open spec fn remaining(self) -> nat {
        let planned = planned_steps(self.duration_ms as u128) as nat;
        let later = (self.steps - self.step) as nat;
        match self.stage {
            ExecStage::EmitStart => 5 * planned + 2,
            ExecStage::PollAfterStart => 5 * planned + 1,
            ExecStage::Sleeping => 5 * later + 5,
            ExecStage::PollBeforeMove => 5 * later + 4,
            ExecStage::Interpolating => 5 * later + 3,
            ExecStage::EmitMove => 5 * later + 2,
            ExecStage::PollAfterMove => 5 * later + 1,
            ExecStage::Finished(_) => 0,
        }
    }

    /// Starts the playback of a goal from `start` to `target` lasting
    /// `duration_ms`: the first action sends the start position as feedback.
    pub fn new(start: Position, target: Position, duration_ms: u64) -> (exec: GoalExecution)
        ensures
            exec == (GoalExecution {
                start,
                target,
                duration_ms,
                steps: 0,
                step_ms: 0,
                step: 0,
                current: start,
                stage: ExecStage::EmitStart,
            }),
            exec.wf(),
            exec.action_spec() == ExecAction::EmitFeedback(start),
    {
        GoalExecution {
            start,
            target,
            duration_ms,
            steps: 0,
            step_ms: 0,
            step: 0,
            current: start,
            stage: ExecStage::EmitStart,
        }
    }

    /// The action that the playback asks the driver for.
    pub fn next_action(&self) -> (action: ExecAction)
        ensures
            action == self.action_spec(),
            self.stage is Interpolating ==> action == (ExecAction::Interpolate {
                step: self.step,
                steps: self.steps,
            }),
            self.stage is Sleeping ==> action == ExecAction::Sleep(self.step_ms),
    {
        match self.stage {
            ExecStage::EmitStart => ExecAction::EmitFeedback(self.start),
            ExecStage::PollAfterStart | ExecStage::PollBeforeMove
            | ExecStage::PollAfterMove => ExecAction::PollCancel,
            ExecStage::Sleeping => ExecAction::Sleep(self.step_ms),
            ExecStage::Interpolating => ExecAction::Interpolate { step: self.step, steps: self.steps },
            ExecStage::EmitMove => ExecAction::EmitFeedback(self.current),
            ExecStage::Finished(outcome) => ExecAction::Finish(outcome),
        }
    }

    /// Takes in what came of the last action and moves to the next stage.
    pub fn step(&mut self, event: ExecEvent)
        requires
            old(self).wf(),
            old(self).accepts(event),
        ensures
            *final(self) == old(self).next_spec(event),
            final(self).wf(),
            final(self).remaining() < old(self).remaining(),
            event == ExecEvent::CancelPolled(CancelPoll::Closed) ==> final(self).stage
                == ExecStage::Finished(ActionOutcome::Closed),
            event == ExecEvent::CancelPolled(CancelPoll::Cancelled) ==> final(self).stage
                == ExecStage::Finished(ActionOutcome::Cancelled(old(self).current)),
            event == ExecEvent::CancelPolled(CancelPoll::NoRequest) ==> !(final(self).stage
                matches ExecStage::Finished(ActionOutcome::Cancelled(_))) && final(self).stage
                != ExecStage::Finished(ActionOutcome::Closed),
    {
        proof {
            lemma_cancel_checks_decide_outcome(*self, event);
        }
        proof {
            lemma_step_keeps_well_formed(*self, event);
            lemma_step_makes_progress(*self, event);
        }
        match self.stage {
            ExecStage::EmitStart => {
                self.stage = ExecStage::PollAfterStart;
            },
            ExecStage::PollAfterStart => match event {
                ExecEvent::CancelPolled(CancelPoll::Cancelled) => {
                    self.stage = ExecStage::Finished(ActionOutcome::Cancelled(self.start));
                },
                ExecEvent::CancelPolled(CancelPoll::Closed) => {
                    self.stage = ExecStage::Finished(ActionOutcome::Closed);
                },
                _ => {
                    let (steps, step_ms) = feedback_plan(self.duration_ms as u128);
                    self.steps = steps;
                    self.step_ms = step_ms;
                    self.step = 1;
                    self.current = self.start;
                    self.stage = ExecStage::Sleeping;
                },
            },
            ExecStage::Sleeping => {
                self.stage = ExecStage::PollBeforeMove;
            },
            ExecStage::PollBeforeMove => match event {
                ExecEvent::CancelPolled(CancelPoll::Cancelled) => {
                    self.stage = ExecStage::Finished(ActionOutcome::Cancelled(self.current));
                },
                ExecEvent::CancelPolled(CancelPoll::Closed) => {
                    self.stage = ExecStage::Finished(ActionOutcome::Closed);
                },
                _ => {
                    self.stage = ExecStage::Interpolating;
                },
            },
            ExecStage::Interpolating => match event {
                ExecEvent::Interpolated(p) => {
                    self.current = p;
                    self.stage = ExecStage::EmitMove;
                },
                _ => {},
            },
            ExecStage::EmitMove => {
                self.stage = ExecStage::PollAfterMove;
            },
            ExecStage::PollAfterMove => match event {
                ExecEvent::CancelPolled(CancelPoll::Cancelled) => {
                    self.stage = ExecStage::Finished(ActionOutcome::Cancelled(self.current));
                },
                ExecEvent::CancelPolled(CancelPoll::Closed) => {
                    self.stage = ExecStage::Finished(ActionOutcome::Closed);
                },
                _ => {
                    if self.step < self.steps {
                        self.step = self.step + 1;
                        self.stage = ExecStage::Sleeping;
                    } else {
                        self.stage = ExecStage::Finished(ActionOutcome::Completed(self.target));
                    }
                },
            },
            ExecStage::Finished(_) => {},
        }
    }
}

/// Every step of a well-formed playback leads to a well-formed playback.
pub proof fn lemma_step_keeps_well_formed(exec: GoalExecution, event: ExecEvent)
    requires
        exec.wf(),
        exec.accepts(event),
    ensures
        exec.next_spec(event).wf(),
{
}

/// Termination law: every answered action brings the playback strictly
/// closer to its end, so a playback finishes after at most
/// `5 * steps + 2` actions whatever the cancel checks find.
pub proof fn lemma_step_makes_progress(exec: GoalExecution, event: ExecEvent)
    requires
        exec.wf(),
        exec.accepts(event),
    ensures
        exec.next_spec(event).remaining() < exec.remaining(),
{
}

/// Outcome law: a playback that completes reports exactly its target, one
/// that is cancelled reports the position last sent as feedback (the start,
/// if no step was sent yet), and a finished playback accepts no further
/// event and asks for nothing but to finish.
pub proof fn lemma_finished_outcome(exec: GoalExecution, event: ExecEvent)
    requires
        exec.wf(),
        exec.stage is Finished,
    ensures
        exec.action_spec() == ExecAction::Finish(exec.stage->Finished_0),
        !exec.accepts(event),
        exec.stage->Finished_0 matches ActionOutcome::Completed(p) ==> p == exec.target,
        exec.stage->Finished_0 matches ActionOutcome::Cancelled(p) ==> p == exec.current,
{
}

/// A cancel request answered at the very first check stops the arm where it
/// started.
pub proof fn lemma_cancel_before_moving_keeps_start(exec: GoalExecution)
    requires
        exec.wf(),
        exec.stage is PollAfterStart,
    ensures
        exec.next_spec(ExecEvent::CancelPolled(CancelPoll::Cancelled)).stage == ExecStage::Finished(
            ActionOutcome::Cancelled(exec.start),
        ),
{
}

/// Cancel-check law: at every cancel check of a playback, a closed channel
/// ends it with `Closed`, an accepted cancel request ends it with
/// `Cancelled` at the arm's current position, and a check that finds nothing
/// never ends it as closed or cancelled.
pub proof fn lemma_cancel_checks_decide_outcome(exec: GoalExecution, event: ExecEvent)
    requires
        exec.wf(),
        exec.accepts(event),
    ensures
        event == ExecEvent::CancelPolled(CancelPoll::Closed) ==> exec.next_spec(event).stage
            == ExecStage::Finished(ActionOutcome::Closed),
        event == ExecEvent::CancelPolled(CancelPoll::Cancelled) ==> exec.next_spec(event).stage
            == ExecStage::Finished(ActionOutcome::Cancelled(exec.current)),
        event == ExecEvent::CancelPolled(CancelPoll::NoRequest) ==> {
            &&& !(exec.next_spec(event).stage matches ExecStage::Finished(ActionOutcome::Cancelled(_)))
            &&& exec.next_spec(event).stage != ExecStage::Finished(ActionOutcome::Closed)
        },
{
}

/// Step-order law: the movement's steps are taken one after another from 1
/// up to the plan's step count, and step `k` of `n` asks for the position at
/// fraction `k / n` of the way from start to target.  The first step follows
/// the first cancel check, each later step is one more than the one before,
/// the step number does not change within a step, and the goal completes only
/// after the last step.
pub proof fn lemma_steps_taken_in_order(exec: GoalExecution, event: ExecEvent)
    requires
        exec.wf(),
        exec.accepts(event),
    ensures
        ({
            let next = exec.next_spec(event);
            &&& exec.stage is PollAfterStart && next.stage is Sleeping ==> next.step == 1
                && next.steps == planned_steps(exec.duration_ms as u128)
            &&& exec.stage is PollAfterMove && next.stage is Sleeping ==> next.step == exec.step
                + 1 && next.steps == exec.steps
            &&& is_moving(exec.stage) && is_moving(next.stage) && !(exec.stage is PollAfterMove)
                ==> next.step == exec.step && next.steps == exec.steps
            &&& next.stage matches ExecStage::Finished(ActionOutcome::Completed(_)) ==> exec.stage
                is PollAfterMove && exec.step == exec.steps
            &&& next.stage is Interpolating ==> 1 <= next.step <= next.steps
                && next.action_spec() == (ExecAction::Interpolate {
                step: next.step,
                steps: next.steps,
            })
        }),
{
}

} // verus!
