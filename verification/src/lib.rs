//! A render-system scheduler and GPU command-submission orchestrator.
//!
//! The host declares many small render systems that record GPU commands.
//! This library partitions them across GPU queues, batches adjacent systems
//! of the same queue into single command-buffer submissions, inserts
//! pipeline barriers, and wires timeline semaphores between submissions so
//! that cross-queue dependencies are respected without host blocking.

pub mod accel;
pub mod access;
pub mod buffer;
pub mod cluster;
pub mod digraph;
pub mod error;
pub mod extension;
pub mod format;
pub mod graph;
pub mod record;
pub mod reduce;
pub mod queue;
pub mod schedule;
pub mod submit;
pub mod timeline;
