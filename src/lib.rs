//! Timing and hand-off core of an interactive cube viewer: window events are
//! routed into per-consumer queues, a fixed-step simulation clock decides when
//! ticks are due, a pacer caps the frame rate, and a latest-wins slot carries
//! simulation snapshots to the renderer.
pub mod event;
pub mod input;
pub mod queue;
pub mod dispatch;
pub mod pacing;
pub mod ticker;
pub mod snapshot;
pub mod surface;
pub mod scene;
pub mod driver;
