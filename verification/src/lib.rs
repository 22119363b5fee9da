//! Core logic of a minimal real-time rendering engine.
//!
//! The library models the decision and bookkeeping layer of a renderer:
//! picking a physical device, negotiating a swapchain, sub-allocating GPU
//! memory, laying out mesh bytes, validating a graphics pipeline, running the
//! per-frame synchronization state machine, and ordering teardown. The host
//! process performs the raw driver calls and hands their outcomes to this
//! library as plain values.

pub mod allocator;
pub mod context;
pub mod diag;
pub mod device;
pub mod errors;
pub mod frame;
pub mod mesh;
pub mod pipeline;
pub mod swapchain;
pub mod teardown;
