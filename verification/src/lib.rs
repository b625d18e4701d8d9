//! Capture-orchestration core of a screen/audio recording tool.
//!
//! The library holds the verified heart of the recorder: the capture
//! lifecycle state machine, the per-stream chunk-buffering algorithm,
//! the pipeline construction plans, and the metadata sidecar codec.
//! The unverified shell around it performs the actual media-framework
//! calls, file writes, and thread plumbing, driven by the decisions
//! this crate makes.

pub mod chunk;
pub mod digits;
pub mod error;
pub mod manager;
pub mod options;
pub mod pipeline;
pub mod sidecar;
