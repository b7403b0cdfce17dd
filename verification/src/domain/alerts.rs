//! Alert commands.

use vstd::prelude::*;

verus! {

/// Alert create command. The data maps arrive as the name-value entries
/// of the request's maps.
#[derive(Clone, Debug, Default, PartialEq, Eq)]
pub struct CreateAlertInput {
    /// Alert name.
    pub name: String,
    /// Optional comment.
    pub comment: Option<String>,
    /// Triggering event; required.
    pub event: Option<String>,
    /// Condition; required.
    pub condition: Option<String>,
    /// Notification method; required.
    pub method: Option<String>,
    /// Event data entries.
    pub event_data: Vec<(String, String)>,
    /// Condition data entries.
    pub condition_data: Vec<(String, String)>,
    /// Method data entries.
    pub method_data: Vec<(String, String)>,
    /// Optional result filter identifier.
    pub filter_id: Option<String>,
}

/// Alert update command.
#[derive(Clone, Debug, Default, PartialEq, Eq)]
pub struct ModifyAlertInput {
    /// Optional name.
    pub name: Option<String>,
    /// Optional comment.
    pub comment: Option<String>,
    /// Optional triggering event.
    pub event: Option<String>,
    /// Optional event data entries.
    pub event_data: Option<Vec<(String, String)>>,
    /// Optional condition.
    pub condition: Option<String>,
    /// Optional condition data entries.
    pub condition_data: Option<Vec<(String, String)>>,
    /// Optional notification method.
    pub method: Option<String>,
    /// Optional method data entries.
    pub method_data: Option<Vec<(String, String)>>,
    /// Optional result filter identifier.
    pub filter_id: Option<String>,
}

} // verus!
