use openarm_nodes::motion::ActionOutcome;
use openarm_nodes::session::{ArmSession, SessionAction, SessionEvent, SessionStage};

#[test]
fn fresh_session_checks_shutdown_first() {
    let s = ArmSession::new();
    assert_eq!(s.last_position, [0, 0, 0]);
    assert_eq!(s.next_action(), SessionAction::CheckShutdown);
}

#[test]
fn shutdown_stops() {
    let mut s = ArmSession::new();
    s.step(SessionEvent::ShutdownChecked(true));
    assert_eq!(s.stage, SessionStage::Stopped);
    assert_eq!(s.next_action(), SessionAction::Stop);
}

#[test]
fn closed_goal_channel_stops() {
    let mut s = ArmSession::new();
    s.step(SessionEvent::ShutdownChecked(false));
    assert_eq!(s.next_action(), SessionAction::WaitForGoal);
    s.step(SessionEvent::GoalReceived(None));
    assert_eq!(s.next_action(), SessionAction::Stop);
}

#[test]
fn goal_round_trip_and_continuity() {
    let mut s = ArmSession::new();
    s.step(SessionEvent::ShutdownChecked(false));
    s.step(SessionEvent::GoalReceived(Some([10, 20, 30])));
    match s.next_action() {
        SessionAction::ExecuteGoal { start, target, duration_ms } => {
            assert_eq!(start, [0, 0, 0]);
            assert_eq!(target, [10, 20, 30]);
            assert!((1000..3000).contains(&duration_ms));
        }
        other => panic!("unexpected action {other:?}"),
    }
    s.step(SessionEvent::GoalFinished(ActionOutcome::Completed([10, 20, 30])));
    assert_eq!(s.last_position, [10, 20, 30]);
    assert_eq!(s.next_action(), SessionAction::SendResult([10, 20, 30]));
    s.step(SessionEvent::ResultSent(true));
    assert_eq!(s.next_action(), SessionAction::CheckShutdown);
    s.step(SessionEvent::ShutdownChecked(false));
    s.step(SessionEvent::GoalReceived(Some([1, 1, 1])));
    match s.next_action() {
        SessionAction::ExecuteGoal { start, target, .. } => {
            assert_eq!(start, [10, 20, 30]);
            assert_eq!(target, [1, 1, 1]);
        }
        other => panic!("unexpected action {other:?}"),
    }
}

#[test]
fn cancelled_goal_reports_stop_position() {
    let mut s = ArmSession::new();
    s.advance(SessionEvent::ShutdownChecked(false), 0);
    s.advance(SessionEvent::GoalReceived(Some([100, 100, 100])), 1500);
    assert_eq!(
        s.next_action(),
        SessionAction::ExecuteGoal { start: [0, 0, 0], target: [100, 100, 100], duration_ms: 1500 }
    );
    s.advance(SessionEvent::GoalFinished(ActionOutcome::Cancelled([40, 40, 40])), 0);
    assert_eq!(s.last_position, [40, 40, 40]);
    assert_eq!(s.next_action(), SessionAction::SendResult([40, 40, 40]));
}

#[test]
fn closed_action_stops_and_keeps_position() {
    let mut s = ArmSession::new();
    s.advance(SessionEvent::ShutdownChecked(false), 0);
    s.advance(SessionEvent::GoalReceived(Some([5, 5, 5])), 1000);
    s.advance(SessionEvent::GoalFinished(ActionOutcome::Closed), 0);
    assert_eq!(s.stage, SessionStage::Stopped);
    assert_eq!(s.last_position, [0, 0, 0]);
}

#[test]
fn unhandled_result_stops() {
    let mut s = ArmSession::new();
    s.advance(SessionEvent::ShutdownChecked(false), 0);
    s.advance(SessionEvent::GoalReceived(Some([5, 5, 5])), 1000);
    s.advance(SessionEvent::GoalFinished(ActionOutcome::Completed([5, 5, 5])), 0);
    s.advance(SessionEvent::ResultSent(false), 0);
    assert_eq!(s.next_action(), SessionAction::Stop);
    assert_eq!(s.last_position, [5, 5, 5]);
}
