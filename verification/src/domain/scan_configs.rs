//! Scan configuration domain types and commands.

use vstd::prelude::*;

use crate::pagination::Pagination;

verus! {

/// Domain scan configuration representation.
#[derive(Clone, Debug, PartialEq, Eq)]
pub struct ScanConfig {
    /// Scan configuration identifier.
    pub id: String,
    /// Scan configuration name.
    pub name: String,
    /// Optional comment.
    pub comment: Option<String>,
    /// Number of NVT families.
    pub family_count: Option<u32>,
    /// Number of NVTs.
    pub nvt_count: Option<u32>,
    /// Backend config type.
    pub config_type: Option<u32>,
    /// Usage type (`scan` or `policy`).
    pub usage_type: Option<String>,
    /// Whether the config is in use.
    pub in_use: bool,
    /// Whether the config is writable.
    pub writable: bool,
}

/// Paginated scan configuration list response.
#[derive(Clone, Debug, PartialEq, Eq)]
pub struct ScanConfigPage {
    /// Page items.
    pub data: Vec<ScanConfig>,
    /// Pagination metadata.
    pub pagination: Pagination,
}

/// Scan configuration list query options.
#[derive(Clone, Debug, Default, PartialEq, Eq)]
pub struct ScanConfigQuery {
    /// Optional GMP filter string.
    pub filter_string: Option<String>,
    /// Optional saved filter identifier.
    pub filter_id: Option<String>,
    /// Requested page number.
    pub page: u32,
    /// Requested page size.
    pub per_page: u32,
}

/// Scan configuration create command.
#[derive(Clone, Debug, PartialEq, Eq)]
pub struct CreateScanConfigInput {
    /// Scan configuration name.
    pub name: String,
    /// Optional comment.
    pub comment: Option<String>,
    /// Identifier of the scan configuration to copy.
    pub base_scan_config_id: Option<String>,
}

/// Scan configuration update command.
#[derive(Clone, Debug, Default, PartialEq, Eq)]
pub struct ModifyScanConfigInput {
    /// Optional name.
    pub name: Option<String>,
    /// Optional comment.
    pub comment: Option<String>,
}

/// Query options for the NVTs selected by a scan configuration.
#[derive(Clone, Debug, Default, PartialEq, Eq)]
pub struct ScanConfigNvtQuery {
    /// Optional family restriction.
    pub family: Option<String>,
    /// Requested page number.
    pub page: u32,
    /// Requested page size.
    pub per_page: u32,
}

/// NVT reference attached to a scan configuration preference.
#[derive(Clone, Debug, PartialEq, Eq)]
pub struct ScanConfigPreferenceNvt {
    /// NVT OID.
    pub oid: String,
    /// Optional NVT name.
    pub name: Option<String>,
}

/// Scan configuration preference.
#[derive(Clone, Debug, PartialEq, Eq)]
pub struct ScanConfigPreference {
    /// NVT the preference belongs to, if any.
    pub nvt: Option<ScanConfigPreferenceNvt>,
    /// Preference name.
    pub name: String,
    /// Preference identifier.
    pub id: Option<String>,
    /// Preference type.
    pub preference_type: Option<String>,
    /// Current value.
    pub value: Option<String>,
    /// Alternative values.
    pub alternatives: Vec<String>,
    /// Default value.
    pub default: Option<String>,
}

/// Preference query options.
#[derive(Clone, Debug, Default, PartialEq, Eq)]
pub struct ScanConfigPreferenceQuery {
    /// Optional NVT OID restriction.
    pub nvt_oid: Option<String>,
}

/// Selection state of one NVT family.
#[derive(Clone, Debug, PartialEq, Eq)]
pub struct ScanConfigFamilySelection {
    /// Family name.
    pub name: String,
    /// Whether new NVTs of the family are added automatically.
    pub growing: bool,
    /// Whether all NVTs of the family are selected.
    pub all: bool,
}

/// Family-selection update command.
#[derive(Clone, Debug, PartialEq, Eq)]
pub struct SetScanConfigFamilySelectionInput {
    /// Families to select.
    pub families: Vec<ScanConfigFamilySelection>,
    /// Whether new families are added automatically.
    pub auto_add_new_families: bool,
}

} // verus!
