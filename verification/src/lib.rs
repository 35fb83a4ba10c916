//! Execution engine for a GPU render graph.
//!
//! Tasks declare the resources they touch and how; each frame the engine
//! resolves those declarations, derives the pipeline barriers needed to order
//! the accesses, batches barriers that share a stage pair, and steps a
//! fence-gated frame-in-flight lifecycle. The device-facing side (command
//! recording, queue submission, presentation) is driven by the embedding
//! application; this crate holds the decision logic and its proofs.

pub mod access;
pub mod barrier;
pub mod graph;
pub mod hazard;
