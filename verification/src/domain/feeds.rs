//! Feed domain types.

use vstd::prelude::*;

verus! {

/// Domain feed status representation.
#[derive(Clone, Debug, PartialEq, Eq)]
pub struct Feed {
    /// Feed type.
    pub feed_type: String,
    /// Feed display name.
    pub name: String,
    /// Feed version string.
    pub version: String,
    /// Optional description.
    pub description: Option<String>,
    /// Optional backend synchronization status.
    pub status: Option<String>,
    /// Optional synchronization-unavailable error.
    pub sync_error: Option<String>,
    /// Optional timestamp for the active synchronization.
    pub sync_timestamp: Option<String>,
    /// Whether a sync is currently running.
    pub currently_syncing: bool,
}

/// Feed-list query options.
#[derive(Clone, Debug, Default, PartialEq, Eq)]
pub struct FeedQuery {
    /// Optional known backend feed type.
    pub feed_type: Option<String>,
}

/// Feed catalog plus backend access/configuration state.
#[derive(Clone, Debug, PartialEq, Eq)]
pub struct FeedList {
    /// Feed entries.
    pub data: Vec<Feed>,
    /// Whether the backend feed owner is configured.
    pub feed_owner_configured: bool,
    /// Whether the backend feed roles are configured.
    pub feed_roles_configured: bool,
    /// Whether the caller has access to feed resources.
    pub feed_resources_access: bool,
}

} // verus!
