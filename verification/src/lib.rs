//! Verified decision logic of a small robotics pipeline: a camera that
//! publishes frames, a "brain" that turns frames into arm goals, and an arm
//! controller that plays each goal back as an interpolated movement with
//! feedback, honouring cancellation and shutdown.

pub mod brain;
pub mod camera;
pub mod motion;
pub mod session;
pub mod timing;
