use openarm_nodes::brain::{fake_position, goals_for_frame, ArmGoal, LEFT_ARM_ID, RIGHT_ARM_ID};
use openarm_nodes::camera::{
    after_camera_info_poll, frame_interval_ms, FrameCounter, InfoPollAction,
};

#[test]
fn position_from_frame_bytes() {
    assert_eq!(fake_position(&[1, 2, 3, 4, 5]), [1, 2, 3]);
    assert_eq!(fake_position(&[255, 0, 128]), [255, 0, 128]);
}

#[test]
fn both_arms_get_frame_position() {
    let (left, right) = goals_for_frame(&[7, 8, 9, 10]);
    assert_eq!(left, ArmGoal { arm_id: 0, desired_position: [7, 8, 9] });
    assert_eq!(right, ArmGoal { arm_id: 1, desired_position: [7, 8, 9] });
    assert_ne!(LEFT_ARM_ID, RIGHT_ARM_ID);
}

#[test]
fn frame_interval_values() {
    assert_eq!(frame_interval_ms(30), 33);
    assert_eq!(frame_interval_ms(1), 1000);
    assert_eq!(frame_interval_ms(25), 40);
    assert_eq!(frame_interval_ms(2000), 0);
}

#[test]
fn frame_counter_counts_and_wraps() {
    let mut c = FrameCounter::new();
    assert_eq!(c.take(), 0);
    assert_eq!(c.take(), 1);
    assert_eq!(c.next_id, 2);
    let mut c = FrameCounter { next_id: u32::MAX };
    assert_eq!(c.take(), u32::MAX);
    assert_eq!(c.take(), 0);
}

#[test]
fn camera_info_poll_decisions() {
    assert_eq!(after_camera_info_poll(true), InfoPollAction::Report);
    assert_eq!(after_camera_info_poll(false), InfoPollAction::RetryAfter(1000));
}
