//! Instance/device extension and feature bookkeeping.
//!
//! Versions use the packed driver encoding (variant, major, minor, patch).
//! Extensions are enabled only when available; an extension promoted to a
//! core version at or below the instance's API version needs no enabling.

use vstd::prelude::*;
use crate::error::SchedulerError;

verus! {

/// A packed API version: `variant << 29 | major << 22 | minor << 12 |
/// patch`.
#[derive(Clone, Copy, Debug, PartialEq, Eq, Structural)]
pub struct Version(pub u32);

impl Version {
    /// Packs the four components.
    pub fn make(variant: u32, major: u32, minor: u32, patch: u32) -> (r: Version)
        requires
            variant < 8,
            major < 128,
            minor < 1024,
            patch < 4096,
        ensures
            r.0 == variant * 0x20000000 + major * 0x400000 + minor * 0x1000 + patch,
    {
        Version(variant * 0x20000000 + major * 0x400000 + minor * 0x1000 + patch)
    }

    pub fn major(&self) -> (r: u32)
        ensures
            r == (self.0 / 0x400000) % 128,
    {
        proof {
            let x = self.0;
            assert(((x >> 22u32) & 0x7f) == (x / 0x400000) % 128) by (bit_vector);
        }
        (self.0 >> 22) & 0x7f
    }

    pub fn minor(&self) -> (r: u32)
        ensures
            r == (self.0 / 0x1000) % 1024,
    {
        proof {
            let x = self.0;
            assert(((x >> 12u32) & 0x3ff) == (x / 0x1000) % 1024) by (bit_vector);
        }
        (self.0 >> 12) & 0x3ff
    }

    pub fn patch(&self) -> (r: u32)
        ensures
            r == self.0 % 4096,
    {
        proof {
            let x = self.0;
            assert((x & 0xfff) == x % 4096) by (bit_vector);
        }
        self.0 & 0xfff
    }
}

/// Properties of an instance layer.
pub struct LayerProperties {
    pub spec_version: Version,
    pub implementation_version: Version,
    pub description: String,
}

/// What to do about a requested extension.
#[derive(Clone, Copy, Debug, PartialEq, Eq, Structural)]
pub enum ExtensionAction {
    /// The extension was promoted to a core version the instance already
    /// has: nothing to enable.
    AlreadyCore,
    /// The extension is available and must be enabled.
    Enable,
}

/// Decides how to satisfy an extension request.  Promotion wins over
/// enabling; an unavailable, unpromoted extension is missing.
pub fn extension_action(
    available: bool,
    promoted_to_core: Option<u32>,
    api_version: u32,
) -> (r: Result<ExtensionAction, SchedulerError>)
    ensures
        (match promoted_to_core {
            Some(v) => api_version >= v,
            None => false,
        }) ==> r == Result::<ExtensionAction, SchedulerError>::Ok(ExtensionAction::AlreadyCore),
        !(match promoted_to_core {
            Some(v) => api_version >= v,
            None => false,
        }) && available ==> r == Result::<ExtensionAction, SchedulerError>::Ok(
            ExtensionAction::Enable,
        ),
        !(match promoted_to_core {
            Some(v) => api_version >= v,
            None => false,
        }) && !available ==> r == Result::<ExtensionAction, SchedulerError>::Err(
            SchedulerError::ExtensionMissing,
        ),
{
    if let Some(v) = promoted_to_core {
        if api_version >= v {
            return Ok(ExtensionAction::AlreadyCore);
        }
    }
    if available {
        Ok(ExtensionAction::Enable)
    } else {
        Err(SchedulerError::ExtensionMissing)
    }
}

/// Whether enabling a device feature succeeded.
pub enum FeatureEnableResult {
    Success,
    NotFound,
}

impl FeatureEnableResult {
    /// Whether the feature was found and enabled.
    pub fn is_success(&self) -> (r: bool)
        ensures
            r <==> self is Success,
    {
        match self {
            FeatureEnableResult::Success => true,
            FeatureEnableResult::NotFound => false,
        }
    }

    /// Demands the feature; a missing feature is a setup error, so callers
    /// must only unwrap results known to be successful.
    pub fn unwrap(&self)
        requires
            *self is Success,
    {
    }
}

} // verus!
