//! Error kinds surfaced by the scheduler.

use vstd::prelude::*;

verus! {

/// Everything that can go wrong while building schedules, creating
/// resources, or submitting work.
#[derive(Clone, Copy, Debug, PartialEq, Eq, Structural)]
pub enum SchedulerError {
    /// No queue family of the requested capability exists on the device.
    NoCompatibleQueue,
    /// Host-side allocation failed.
    OutOfHostMemory,
    /// Device-side allocation failed.
    OutOfDeviceMemory,
    /// The device was lost; the GPU subsystem must be rebuilt.
    DeviceLost,
    /// The user dependency graph contains a cycle.
    ScheduleCycle,
    /// A command buffer was used with a pool it does not belong to, or
    /// after the pool was reset.
    PoolGenerationMismatch,
    /// A host wait on a timeline semaphore timed out.
    TimelineTimeout,
    /// A required extension is not available.
    ExtensionMissing,
    /// A required feature is not available.
    FeatureUnsupported,
}

} // verus!
