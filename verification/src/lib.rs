//! Frame-lifecycle and swapchain-management core for a single-window,
//! single-buffered renderer.
//!
//! The library models, as plain verified data, the state machine that drives
//! one render tick: rebuild a stale presentation surface, acquire an image,
//! record and submit a fixed command sequence, present, and recover from the
//! platform's transient and structural failures. The platform itself (GPU
//! queues, the window system) answers through outcome values that the driver
//! of the loop supplies; every decision taken on those answers is verified
//! here.

pub mod frame_loop;
pub mod laws;
pub mod resources;
pub mod surface;
pub mod sync_tracker;
