//! The robot brain's decision: turn a camera frame into one goal per arm.

use crate::motion::Position;
use vstd::prelude::*;

verus! {

/// Identifier of the left arm in goal requests.
pub const LEFT_ARM_ID: u32 = 0;

/// Identifier of the right arm in goal requests.
pub const RIGHT_ARM_ID: u32 = 1;

/// How long the brain waits for each arm's goal to be answered, in seconds.
pub const GOAL_TIMEOUT_SECS: u64 = 5;

/// A movement goal for one arm.
#[derive(Debug, Clone, Copy, PartialEq, Eq)]
pub struct ArmGoal {
    pub arm_id: u32,
    pub desired_position: Position,
}

/// The position that a frame stands for: its first three bytes, each taken
/// as a joint value.
pub open spec fn frame_position(frame: Seq<u8>) -> Position {
    [frame[0] as i32, frame[1] as i32, frame[2] as i32]
}

/// The arm position derived from a frame: its first three bytes widened to
/// `i32`.  A frame of fewer than three bytes has no position.
pub fn fake_position(frame: &[u8]) -> (position: Position)
    requires
        frame@.len() >= 3,
    ensures
        position == frame_position(frame@),
        position[0] == frame@[0] as i32,
        position[1] == frame@[1] as i32,
        position[2] == frame@[2] as i32,
{
    [frame[0] as i32, frame[1] as i32, frame[2] as i32]
}

/// The goals fired for a frame: the left and the right arm are both sent to
/// the frame's position.
pub fn goals_for_frame(frame: &[u8]) -> (goals: (ArmGoal, ArmGoal))
    requires
        frame@.len() >= 3,
    ensures
        goals.0 == (ArmGoal { arm_id: LEFT_ARM_ID, desired_position: frame_position(frame@) }),
        goals.1 == (ArmGoal { arm_id: RIGHT_ARM_ID, desired_position: frame_position(frame@) }),
{
    let position = fake_position(frame);
    (
        ArmGoal { arm_id: LEFT_ARM_ID, desired_position: position },
        ArmGoal { arm_id: RIGHT_ARM_ID, desired_position: position },
    )
}

/// Coordination law: for every frame both arms get the same desired
/// position, each byte of the frame's head giving one joint value in
/// `0..=255`, and the two goals name different arms.
pub proof fn lemma_both_arms_mirror_the_frame(frame: Seq<u8>)
    requires
        frame.len() >= 3,
    ensures
        forall|i: int| 0 <= i < 3 ==> 0 <= #[trigger] frame_position(frame)[i] <= 255,
        LEFT_ARM_ID != RIGHT_ARM_ID,
{
}

} // verus!
