# openarm_nodes

Decision logic of a four-node robotics pipeline (camera, brain, arm
controller, camera-info client), verified with Verus.

- `src/timing.rs` – movement duration drawn from the clock, feedback plan.
- `src/motion.rs` – playback of one arm goal as a state machine.
- `src/session.rs` – an arm's goal loop (shutdown, goals, results).
- `src/brain.rs` – goals derived from a camera frame.
- `src/camera.rs` – frame pacing and numbering, camera-info retry decision.
- `app/` – the nodes themselves: messaging, async plumbing, video decoding and
  the floating-point interpolation, driving the library's state machines.
