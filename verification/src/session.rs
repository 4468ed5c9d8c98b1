//! The arm controller's goal loop as a state machine: wait for a goal, play
//! it back, report where the arm ended, and stop on shutdown or when the
//! action channel closes.

use crate::motion::{ActionOutcome, Position};
use crate::timing::{action_millis_for_reading, choose_action_duration, is_clock_reading};
use vstd::prelude::*;

verus! {

/// Where the goal loop of one arm stands.
#[derive(Debug, Clone, Copy, PartialEq, Eq)]
pub enum SessionStage {
    /// The shutdown signal is to be checked.
    CheckingShutdown,
    /// The next goal is awaited.
    AwaitingGoal,
    /// A goal towards `target` is to be played back over `duration_ms`.
    Executing { target: Position, duration_ms: u64 },
    /// The arm's final position is to be sent as the goal's result.
    Reporting(Position),
    /// The loop is over.
    Stopped,
}

/// What the driver reports back after performing an action.
#[derive(Debug, Clone, Copy, PartialEq, Eq)]
pub enum SessionEvent {
    /// Whether shutdown was requested.
    ShutdownChecked(bool),
    /// The desired position of the next goal, or nothing when the goal
    /// channel was closed.
    GoalReceived(Option<Position>),
    /// How the playback of the goal ended.
    GoalFinished(ActionOutcome),
    /// Whether the result request was handled.
    ResultSent(bool),
}

/// What the driver is to do next.
#[derive(Debug, Clone, Copy, PartialEq, Eq)]
pub enum SessionAction {
    /// Check whether shutdown was requested.
    CheckShutdown,
    /// Accept the next goal request.
    WaitForGoal,
    /// Play back a goal from `start` to `target` over `duration_ms`.
    ExecuteGoal { start: Position, target: Position, duration_ms: u64 },
    /// Answer the next result request with this position.
    SendResult(Position),
    /// Leave the loop.
    Stop,
}

/// The goal loop of one arm.
#[derive(Debug, Clone, Copy, PartialEq, Eq)]
pub struct ArmSession {
    /// Where the arm stood at the end of the last goal.
    pub last_position: Position,
    pub stage: SessionStage,
}

impl ArmSession {
    /// The events that answer the action of the current stage.
    pub open spec fn accepts(self, event: SessionEvent) -> bool {
        match self.stage {
            SessionStage::CheckingShutdown => event is ShutdownChecked,
            SessionStage::AwaitingGoal => event is GoalReceived,
            SessionStage::Executing { .. } => event is GoalFinished,
            SessionStage::Reporting(_) => event is ResultSent,
            SessionStage::Stopped => false,
        }
    }

    /// The loop after `event` answered the current stage's action, where a
    /// new goal is given `duration_ms` for its playback.
    pub open spec fn next_spec(self, event: SessionEvent, duration_ms: u64) -> ArmSession {
        match (self.stage, event) {
            (SessionStage::CheckingShutdown, SessionEvent::ShutdownChecked(stop)) => if stop {
                ArmSession { stage: SessionStage::Stopped, ..self }
            } else {
                ArmSession { stage: SessionStage::AwaitingGoal, ..self }
            },
            (SessionStage::AwaitingGoal, SessionEvent::GoalReceived(goal)) => match goal {
                Some(target) => ArmSession {
                    stage: SessionStage::Executing { target, duration_ms },
                    ..self
                },
                None => ArmSession { stage: SessionStage::Stopped, ..self },
            },
            (SessionStage::Executing { .. }, SessionEvent::GoalFinished(outcome)) => match outcome {
                ActionOutcome::Completed(p) => ArmSession {
                    last_position: p,
                    stage: SessionStage::Reporting(p),
                },
                ActionOutcome::Cancelled(p) => ArmSession {
                    last_position: p,
                    stage: SessionStage::Reporting(p),
                },
                ActionOutcome::Closed => ArmSession { stage: SessionStage::Stopped, ..self },
            },
            (SessionStage::Reporting(_), SessionEvent::ResultSent(handled)) => if handled {
                ArmSession { stage: SessionStage::CheckingShutdown, ..self }
            } else {
                ArmSession { stage: SessionStage::Stopped, ..self }
            },
            _ => self,
        }
    }

    /// The action that the current stage asks for.
    pub open spec fn action_spec(self) -> SessionAction {
        match self.stage {
            SessionStage::CheckingShutdown => SessionAction::CheckShutdown,
            SessionStage::AwaitingGoal => SessionAction::WaitForGoal,
            SessionStage::Executing { target, duration_ms } => SessionAction::ExecuteGoal {
                start: self.last_position,
                target,
                duration_ms,
            },
            SessionStage::Reporting(p) => SessionAction::SendResult(p),
            SessionStage::Stopped => SessionAction::Stop,
        }
    }

    /// A fresh loop: the arm stands at the origin and shutdown is checked first.
    pub fn new() -> (session: ArmSession)
        ensures
            session == (ArmSession {
                last_position: [0i32, 0i32, 0i32],
                stage: SessionStage::CheckingShutdown,
            }),
            session.action_spec() == SessionAction::CheckShutdown,
    {
        ArmSession { last_position: [0, 0, 0], stage: SessionStage::CheckingShutdown }
    }

    /// The action that the loop asks the driver for.
    pub fn next_action(&self) -> (action: SessionAction)
        ensures
            action == self.action_spec(),
    {
        match self.stage {
            SessionStage::CheckingShutdown => SessionAction::CheckShutdown,
            SessionStage::AwaitingGoal => SessionAction::WaitForGoal,
            SessionStage::Executing { target, duration_ms } => SessionAction::ExecuteGoal {
                start: self.last_position,
                target,
                duration_ms,
            },
            SessionStage::Reporting(p) => SessionAction::SendResult(p),
            SessionStage::Stopped => SessionAction::Stop,
        }
    }

    /// Takes in what came of the last action, with `duration_ms` as the
    /// playback time of a goal that arrives now.
    pub fn advance(&mut self, event: SessionEvent, duration_ms: u64)
        requires
            old(self).accepts(event),
        ensures
            *final(self) == old(self).next_spec(event, duration_ms),
    {
        match event {
            SessionEvent::ShutdownChecked(stop) => {
                self.stage = if stop {
                    SessionStage::Stopped
                } else {
                    SessionStage::AwaitingGoal
                };
            },
            SessionEvent::GoalReceived(goal) => {
                self.stage = match goal {
                    Some(target) => SessionStage::Executing { target, duration_ms },
                    None => SessionStage::Stopped,
                };
            },
            SessionEvent::GoalFinished(outcome) => match outcome {
                ActionOutcome::Completed(p) => {
                    self.last_position = p;
                    self.stage = SessionStage::Reporting(p);
                },
                ActionOutcome::Cancelled(p) => {
                    self.last_position = p;
                    self.stage = SessionStage::Reporting(p);
                },
                ActionOutcome::Closed => {
                    self.stage = SessionStage::Stopped;
                },
            },
            SessionEvent::ResultSent(handled) => {
                self.stage = if handled {
                    SessionStage::CheckingShutdown
                } else {
                    SessionStage::Stopped
                };
            },
        }
    }

    /// Takes in what came of the last action; a goal that arrives now gets a
    /// playback time drawn from the clock by `choose_action_duration`.
    pub fn step(&mut self, event: SessionEvent)
        requires
            old(self).accepts(event),
        ensures
            exists|reading: Option<u32>|
                is_clock_reading(reading) && *final(self) == old(self).next_spec(
                    event,
                    #[trigger] action_millis_for_reading(reading),
                ),
            !(event matches SessionEvent::GoalReceived(Some(_))) ==> *final(self)
                == old(self).next_spec(event, 0),
    {
        let ghost before = *self;
        let duration_ms = choose_action_duration();
        self.advance(event, duration_ms);
        proof {
            if !(event matches SessionEvent::GoalReceived(Some(_))) {
                lemma_duration_only_for_new_goals(before, event, duration_ms, 0);
            }
        }
    }
}

/// Shutdown law: once the loop has stopped it accepts no event and asks for
/// nothing but to stop.
pub proof fn lemma_stopped_is_final(session: ArmSession, event: SessionEvent)
    requires
        session.stage is Stopped,
    ensures
        !session.accepts(event),
        session.action_spec() == SessionAction::Stop,
{
}

/// Result law: when a goal completes or is cancelled, the arm's position
/// becomes the outcome's position and exactly that position is sent as the
/// goal's result; when the channel closes, the loop stops and the arm keeps
/// its position.
pub proof fn lemma_result_reports_final_position(
    session: ArmSession,
    outcome: ActionOutcome,
    duration_ms: u64,
)
    requires
        session.stage is Executing,
    ensures
        ({
            let next = session.next_spec(SessionEvent::GoalFinished(outcome), duration_ms);
            match outcome {
                ActionOutcome::Completed(p) | ActionOutcome::Cancelled(p) => {
                    &&& next.last_position == p
                    &&& next.action_spec() == SessionAction::SendResult(p)
                },
                ActionOutcome::Closed => {
                    &&& next.last_position == session.last_position
                    &&& next.stage is Stopped
                },
            }
        }),
{
}

/// Continuity law: the arm's position changes only through a goal's outcome,
/// and every goal is played back from the position the arm was left in.
pub proof fn lemma_goals_start_where_arm_stands(
    session: ArmSession,
    event: SessionEvent,
    duration_ms: u64,
)
    ensures
        !(event is GoalFinished) ==> session.next_spec(event, duration_ms).last_position
            == session.last_position,
        session.action_spec() matches SessionAction::ExecuteGoal { start, .. } ==> start
            == session.last_position,
{
}

/// Only a newly received goal takes up the playback time; every other event
/// leads to the same loop whatever time is offered.
pub proof fn lemma_duration_only_for_new_goals(
    session: ArmSession,
    event: SessionEvent,
    d1: u64,
    d2: u64,
)
    requires
        !(event matches SessionEvent::GoalReceived(Some(_))),
    ensures
        session.next_spec(event, d1) == session.next_spec(event, d2),
{
}

} // verus!
