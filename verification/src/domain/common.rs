//! Small value types used across resource families.

use vstd::prelude::*;

verus! {

/// Reference to another backend resource.
#[derive(Clone, Debug, PartialEq, Eq)]
pub struct ResourceRef {
    /// Resource identifier.
    pub id: String,
    /// Optional display name.
    pub name: Option<String>,
}

/// System readiness as reported to health probes.
#[derive(Clone, Debug, PartialEq, Eq)]
pub struct ReadinessStatus {
    /// `ready` or `notReady`.
    pub status: &'static str,
    /// Why the backend is not ready.
    pub reason: Option<String>,
}

} // verus!
