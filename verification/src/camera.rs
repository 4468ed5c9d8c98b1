//! Decisions of the camera nodes: pacing and numbering of published frames,
//! and what to do with the answer to a camera-information request.

use vstd::prelude::*;

verus! {

/// Pause between two published frames at `frame_rate` frames per second, in
/// milliseconds (integer division).  A frame rate of zero has no interval.
pub fn frame_interval_ms(frame_rate: u64) -> (interval: u64)
    requires
        frame_rate > 0,
    ensures
        interval == 1000u64 / frame_rate,
{
    1000 / frame_rate
}

/// The identifier that follows `id`: one more, wrapping to 0 after `u32::MAX`.
pub open spec fn next_frame_id(id: u32) -> u32 {
    ((id as int + 1) % 0x1_0000_0000) as u32
}

/// Numbers the frames that a camera publishes.
#[derive(Debug, Clone, Copy, PartialEq, Eq)]
pub struct FrameCounter {
    /// The identifier that the next frame gets.
    pub next_id: u32,
}

impl FrameCounter {
    /// A counter whose first frame is numbered 0.
    pub fn new() -> (counter: FrameCounter)
        ensures
            counter.next_id == 0,
    {
        FrameCounter { next_id: 0 }
    }

    /// Hands out the identifier of the frame being published and moves on to
    /// the next one, wrapping around after `u32::MAX`.
    pub fn take(&mut self) -> (id: u32)
        ensures
            id == old(self).next_id,
            final(self).next_id == next_frame_id(id),
    {
        let id = self.next_id;
        self.next_id = if id == u32::MAX {
            0
        } else {
            id + 1
        };
        id
    }
}

/// Numbering law: frames are numbered consecutively, and the numbering
/// comes back to where it started after exactly 2^32 frames.
pub proof fn lemma_frame_ids_wrap(id: u32)
    ensures
        id < u32::MAX ==> next_frame_id(id) == id + 1,
        id == u32::MAX ==> next_frame_id(id) == 0,
{
}

/// How long a camera-information request may wait for an answer, in seconds.
pub const CAMERA_INFO_TIMEOUT_SECS: u64 = 5;

/// Pause before a failed camera-information request is sent again, in milliseconds.
pub const CAMERA_INFO_RETRY_MILLIS: u64 = 1000;

/// What to do after a camera-information request.
#[derive(Debug, Clone, Copy, PartialEq, Eq)]
pub enum InfoPollAction {
    /// Report the information received and stop polling.
    Report,
    /// Wait this many milliseconds, then ask again.
    RetryAfter(u64),
}

/// Decides on the answer to a camera-information request: an answer is
/// reported and ends the polling; a failure is retried after one second.
pub fn after_camera_info_poll(answered: bool) -> (action: InfoPollAction)
    ensures
        answered ==> action == InfoPollAction::Report,
        !answered ==> action == InfoPollAction::RetryAfter(CAMERA_INFO_RETRY_MILLIS),
{
    if answered {
        InfoPollAction::Report
    } else {
        InfoPollAction::RetryAfter(CAMERA_INFO_RETRY_MILLIS)
    }
}

} // verus!
