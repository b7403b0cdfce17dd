//! Task domain types and commands.

use vstd::prelude::*;

use crate::domain::common::ResourceRef;
use crate::pagination::Pagination;

verus! {

/// Severity counts attached to a task's latest report reference.
#[derive(Clone, Debug, Default, PartialEq, Eq)]
pub struct TaskReportResultCount {
    /// Critical finding count.
    pub critical: Option<u32>,
    /// High finding count.
    pub high: Option<u32>,
    /// Medium finding count.
    pub medium: Option<u32>,
    /// Low finding count.
    pub low: Option<u32>,
    /// Log finding count.
    pub log: Option<u32>,
    /// False-positive count.
    pub false_positive: Option<u32>,
}

/// Compliance counts attached to an audit task's latest report reference.
#[derive(Clone, Debug, Default, PartialEq, Eq)]
pub struct TaskReportComplianceCount {
    /// Compliant result count.
    pub yes: Option<u32>,
    /// Non-compliant result count.
    pub no: Option<u32>,
    /// Incomplete result count.
    pub incomplete: Option<u32>,
}

/// Purpose-shaped task report reference.
#[derive(Clone, Debug, PartialEq, Eq)]
pub struct TaskReportReference {
    /// Report identifier.
    pub id: String,
    /// Backend report timestamp.
    pub timestamp: Option<String>,
    /// Scan start timestamp.
    pub scan_start: Option<String>,
    /// Scan end timestamp.
    pub scan_end: Option<String>,
    /// Latest report result counts.
    pub result_count: Option<TaskReportResultCount>,
    /// Latest report severity.
    pub severity: Option<String>,
    /// Latest audit compliance counts.
    pub compliance_count: Option<TaskReportComplianceCount>,
}

/// Observer principals associated with a task.
#[derive(Clone, Debug, Default, PartialEq, Eq)]
pub struct TaskObservers {
    /// Observer user names.
    pub users: Vec<String>,
    /// Observer group references.
    pub groups: Vec<ResourceRef>,
    /// Observer role references.
    pub roles: Vec<ResourceRef>,
}

impl TaskObservers {
    /// Whether no observer principals are present.
    pub fn is_empty(&self) -> (empty: bool)
        ensures
            empty == (self.users@.len() == 0 && self.groups@.len() == 0 && self.roles@.len() == 0),
    {
        self.users.len() == 0 && self.groups.len() == 0 && self.roles.len() == 0
    }
}

/// Domain task representation.
#[derive(Clone, Debug, PartialEq, Eq)]
pub struct Task {
    /// Task identifier.
    pub id: String,
    /// Task name.
    pub name: String,
    /// Optional comment.
    pub comment: Option<String>,
    /// Task status.
    pub status: String,
    /// Task progress percentage reported by gvmd.
    pub progress: Option<i32>,
    /// Target reference.
    pub target: Option<ResourceRef>,
    /// Agent group reference for agent-group scan tasks.
    pub agent_group: Option<ResourceRef>,
    /// OCI image target reference for container-image scan tasks.
    pub oci_image_target: Option<ResourceRef>,
    /// Web application target reference for web scan tasks.
    pub web_application_target: Option<ResourceRef>,
    /// Scan configuration reference.
    pub scan_config: Option<ResourceRef>,
    /// Scanner reference.
    pub scanner: Option<ResourceRef>,
    /// Schedule reference.
    pub schedule: Option<ResourceRef>,
    /// Alert references.
    pub alerts: Vec<ResourceRef>,
    /// Whether the task is alterable.
    pub alterable: Option<bool>,
    /// Hosts ordering strategy.
    pub hosts_ordering: Option<String>,
    /// Observer principals.
    pub observers: TaskObservers,
    /// Number of schedule periods.
    pub schedule_periods: Option<u32>,
    /// Last report reference.
    pub last_report: Option<TaskReportReference>,
    /// Current (in-progress) report reference.
    pub current_report: Option<TaskReportReference>,
    /// Number of reports associated with the task.
    pub report_count: Option<u32>,
    /// Backend task usage discriminator, such as `scan` or `audit`.
    pub usage_type: Option<String>,
    /// Backend task trend value.
    pub trend: Option<String>,
    /// Whether the task is in use.
    pub in_use: bool,
    /// Whether the task is writable.
    pub writable: bool,
}

/// Paginated task list response.
#[derive(Clone, Debug, PartialEq, Eq)]
pub struct TaskPage {
    /// Page items.
    pub data: Vec<Task>,
    /// Pagination metadata.
    pub pagination: Pagination,
}

/// Task list query options.
#[derive(Clone, Debug, Default, PartialEq, Eq)]
pub struct TaskQuery {
    /// Optional GMP filter string.
    pub filter_string: Option<String>,
    /// Optional saved filter identifier.
    pub filter_id: Option<String>,
    /// Requested page number.
    pub page: u32,
    /// Requested page size.
    pub per_page: u32,
}

/// Target selector for a task create command.
#[derive(Clone, Debug, PartialEq, Eq)]
pub enum CreateTaskTarget {
    /// Classic target plus scan configuration and scanner.
    Classic {
        /// Classic target identifier.
        target_id: String,
        /// Scan configuration identifier.
        scan_config_id: String,
        /// Scanner identifier.
        scanner_id: String,
    },
    /// Agent-group scan task.
    AgentGroup {
        /// Agent-group identifier.
        agent_group_id: String,
        /// Scanner identifier.
        scanner_id: String,
    },
    /// OCI image scan task.
    OciImage {
        /// OCI image target identifier.
        oci_image_target_id: String,
        /// Scanner identifier.
        scanner_id: String,
    },
    /// Web application scan task.
    WebApplication {
        /// Web application target identifier.
        web_application_target_id: String,
        /// Scanner identifier.
        scanner_id: String,
    },
    /// Import-only task used as the owner for imported reports.
    Import,
}

/// Task create command.
#[derive(Clone, Debug, PartialEq, Eq)]
pub struct CreateTaskInput {
    /// Task name.
    pub name: String,
    /// Optional comment.
    pub comment: Option<String>,
    /// Exactly one validated task target variant.
    pub target: CreateTaskTarget,
    /// Optional schedule identifier.
    pub schedule_id: Option<String>,
    /// Optional alert identifiers.
    pub alert_ids: Vec<String>,
    /// Optional alterable flag.
    pub alterable: Option<bool>,
    /// Optional observers.
    pub observers: Vec<String>,
    /// Optional schedule periods.
    pub schedule_periods: Option<u32>,
    /// Optional key-value scan preferences.
    pub preferences: Vec<(String, String)>,
}

/// Task update command.
#[derive(Clone, Debug, Default, PartialEq, Eq)]
pub struct ModifyTaskInput {
    /// Optional name.
    pub name: Option<String>,
    /// Optional comment.
    pub comment: Option<String>,
    /// Optional target identifier.
    pub target_id: Option<String>,
    /// Optional scan config identifier.
    pub scan_config_id: Option<String>,
    /// Optional scanner identifier.
    pub scanner_id: Option<String>,
    /// Optional schedule identifier.
    pub schedule_id: Option<String>,
    /// Optional alert identifiers.
    pub alert_ids: Option<Vec<String>>,
    /// Optional alterable flag.
    pub alterable: Option<bool>,
    /// Optional observers.
    pub observers: Vec<String>,
    /// Optional schedule periods.
    pub schedule_periods: Option<u32>,
    /// Optional key-value scan preferences.
    pub preferences: Vec<(String, String)>,
}

/// Result from a start or resume task action containing the report identifier.
#[derive(Clone, Debug, PartialEq, Eq)]
pub struct TaskAction {
    /// UUID of the report created by the action.
    pub report_id: String,
}

} // verus!
