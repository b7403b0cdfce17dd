//! Supporting resource catalogs used by report export, finding triage, saved
//! filters, tags, tickets, asset inventory, and NVT discovery workflows.

use vstd::prelude::*;

use crate::domain::common::ResourceRef;
use crate::pagination::Pagination;

verus! {

/// Common query options used by supporting-resource list endpoints.
#[derive(Clone, Debug, Default, PartialEq, Eq)]
pub struct SupportingResourceQuery {
    /// Optional GMP filter string.
    pub filter_string: Option<String>,
    /// Optional saved filter identifier.
    pub filter_id: Option<String>,
    /// Requested page number.
    pub page: u32,
    /// Requested page size.
    pub per_page: u32,
}

/// Note create command.
#[derive(Clone, Debug, Default, PartialEq, Eq)]
pub struct CreateNoteInput {
    /// Required NVT OID selector.
    pub nvt_oid: String,
    /// Optional note text body.
    pub text: Option<String>,
    /// Optional host selectors.
    pub hosts: Vec<String>,
    /// Optional port selector.
    pub port: Option<String>,
    /// Optional severity selector.
    pub severity: Option<String>,
    /// Optional related task identifier.
    pub task_id: Option<String>,
    /// Optional related result identifier.
    pub result_id: Option<String>,
    /// Optional active flag.
    pub active: Option<bool>,
    /// Optional orphan flag.
    pub orphan: Option<bool>,
}

/// Note update command.
#[derive(Clone, Debug, Default, PartialEq, Eq)]
pub struct ModifyNoteInput {
    /// Optional note text body.
    pub text: Option<String>,
    /// Optional host selectors.
    pub hosts: Option<Vec<String>>,
    /// Optional port selector.
    pub port: Option<String>,
    /// Optional severity selector.
    pub severity: Option<String>,
    /// Optional related task identifier.
    pub task_id: Option<String>,
    /// Optional related result identifier.
    pub result_id: Option<String>,
    /// Optional active flag.
    pub active: Option<bool>,
    /// Optional orphan flag.
    pub orphan: Option<bool>,
}

/// Override create command.
#[derive(Clone, Debug, Default, PartialEq, Eq)]
pub struct CreateOverrideInput {
    /// Required NVT OID selector.
    pub nvt_oid: String,
    /// Optional override text body.
    pub text: Option<String>,
    /// Optional host selectors.
    pub hosts: Vec<String>,
    /// Optional port selector.
    pub port: Option<String>,
    /// Optional matching severity selector.
    pub severity: Option<String>,
    /// Optional replacement severity selector.
    pub new_severity: Option<String>,
    /// Optional related task identifier.
    pub task_id: Option<String>,
    /// Optional related result identifier.
    pub result_id: Option<String>,
    /// Optional active flag.
    pub active: Option<bool>,
}

/// Override update command.
#[derive(Clone, Debug, Default, PartialEq, Eq)]
pub struct ModifyOverrideInput {
    /// Optional override text body.
    pub text: Option<String>,
    /// Optional host selectors.
    pub hosts: Option<Vec<String>>,
    /// Optional port selector.
    pub port: Option<String>,
    /// Optional matching severity selector.
    pub severity: Option<String>,
    /// Optional replacement severity selector.
    pub new_severity: Option<String>,
    /// Optional related task identifier.
    pub task_id: Option<String>,
    /// Optional related result identifier.
    pub result_id: Option<String>,
    /// Optional active flag.
    pub active: Option<bool>,
}

/// Common metadata shared by supporting resources.
#[derive(Clone, Debug, PartialEq, Eq)]
pub struct SupportingResourceMeta {
    /// Resource identifier.
    pub id: String,
    /// Resource name.
    pub name: String,
    /// Optional comment.
    pub comment: Option<String>,
    /// Optional creation timestamp.
    pub creation_time: Option<String>,
    /// Optional modification timestamp.
    pub modification_time: Option<String>,
    /// Whether the resource is writable.
    pub writable: bool,
    /// Whether the resource is in use.
    pub in_use: bool,
}

/// Domain host (asset) representation.
#[derive(Clone, Debug, PartialEq, Eq)]
pub struct Host {
    /// Shared resource metadata.
    pub meta: SupportingResourceMeta,
    /// Optional IP address.
    pub ip: Option<String>,
    /// Optional hostname.
    pub hostname: Option<String>,
    /// Optional severity summary exposed by gvmd.
    pub severity: Option<String>,
    /// Optional detected operating system.
    pub os: Option<String>,
}

/// Paginated host list response.
#[derive(Clone, Debug, PartialEq, Eq)]
pub struct HostPage {
    /// Page items.
    pub data: Vec<Host>,
    /// Pagination metadata.
    pub pagination: Pagination,
}

/// Domain representation of a TLS certificate asset.
#[derive(Clone, Debug, PartialEq, Eq)]
pub struct TlsCertificateAsset {
    /// Shared resource metadata.
    pub meta: SupportingResourceMeta,
    /// Optional subject distinguished name.
    pub subject_dn: Option<String>,
    /// Optional issuer distinguished name.
    pub issuer_dn: Option<String>,
    /// Optional activation timestamp.
    pub activation_time: Option<String>,
    /// Optional expiration timestamp.
    pub expiration_time: Option<String>,
    /// Optional MD5 fingerprint.
    pub md5_fingerprint: Option<String>,
    /// Optional SHA-256 fingerprint.
    pub sha256_fingerprint: Option<String>,
    /// Optional PEM-encoded certificate.
    pub certificate: Option<String>,
    /// Whether the certificate is currently valid per gvmd.
    pub valid: bool,
}

/// Paginated TLS certificate asset list response.
#[derive(Clone, Debug, PartialEq, Eq)]
pub struct TlsCertificateAssetPage {
    /// Page items.
    pub data: Vec<TlsCertificateAsset>,
    /// Pagination metadata.
    pub pagination: Pagination,
}

/// Domain report-format representation.
#[derive(Clone, Debug, PartialEq, Eq)]
pub struct ReportFormat {
    /// Shared resource metadata.
    pub meta: SupportingResourceMeta,
    /// MIME content type when known.
    pub content_type: Option<String>,
    /// File extension when known.
    pub extension: Option<String>,
    /// Optional human-readable summary.
    pub summary: Option<String>,
    /// Trust indicator when exposed by gvmd.
    pub trust: Option<String>,
    /// Whether the report format is active.
    pub active: bool,
    /// Whether the report format is predefined by the backend.
    pub predefined: bool,
}

/// Paginated report-format list response.
#[derive(Clone, Debug, PartialEq, Eq)]
pub struct ReportFormatPage {
    /// Page items.
    pub data: Vec<ReportFormat>,
    /// Pagination metadata.
    pub pagination: Pagination,
}

/// Domain vulnerability (SecInfo) summary.
#[derive(Clone, Debug, PartialEq, Eq)]
pub struct Vulnerability {
    /// Vulnerability identifier (NVT OID).
    pub id: String,
    /// Vulnerability name.
    pub name: String,
}

/// Paginated vulnerability list response.
#[derive(Clone, Debug, PartialEq, Eq)]
pub struct VulnerabilityPage {
    /// Page items.
    pub data: Vec<Vulnerability>,
    /// Pagination metadata.
    pub pagination: Pagination,
}

/// Domain NVT family representation.
#[derive(Clone, Debug, PartialEq, Eq)]
pub struct NvtFamily {
    /// Family name.
    pub name: String,
    /// Optional maximum NVT count exposed by gvmd.
    pub max_nvt_count: Option<u32>,
}

/// Paginated NVT family list response.
#[derive(Clone, Debug, PartialEq, Eq)]
pub struct NvtFamilyPage {
    /// Page items.
    pub data: Vec<NvtFamily>,
    /// Pagination metadata.
    pub pagination: Pagination,
}

/// Domain saved-filter representation.
#[derive(Clone, Debug, PartialEq, Eq)]
pub struct Filter {
    /// Shared resource metadata.
    pub meta: SupportingResourceMeta,
    /// Optional resource type the filter targets.
    pub filter_type: Option<String>,
    /// Optional filter term.
    pub term: Option<String>,
}

/// Paginated filter list response.
#[derive(Clone, Debug, PartialEq, Eq)]
pub struct FilterPage {
    /// Page items.
    pub data: Vec<Filter>,
    /// Pagination metadata.
    pub pagination: Pagination,
}

/// Domain tag representation.
#[derive(Clone, Debug, PartialEq, Eq)]
pub struct Tag {
    /// Shared resource metadata.
    pub meta: SupportingResourceMeta,
    /// Optional tag value payload.
    pub value: Option<String>,
    /// Optional resource kind associated with the tag.
    pub resource_type: Option<String>,
    /// Optional number of matching resources.
    pub resource_count: Option<u32>,
    /// Whether the tag is active.
    pub active: bool,
}

/// Paginated tag list response.
#[derive(Clone, Debug, PartialEq, Eq)]
pub struct TagPage {
    /// Page items.
    pub data: Vec<Tag>,
    /// Pagination metadata.
    pub pagination: Pagination,
}

/// Filter create command.
#[derive(Clone, Debug, Default, PartialEq, Eq)]
pub struct CreateFilterInput {
    /// Required filter name.
    pub name: String,
    /// Optional comment.
    pub comment: Option<String>,
    /// Optional GMP filter term expression.
    pub term: Option<String>,
    /// Optional resource type the filter applies to.
    pub filter_type: Option<String>,
}

/// Filter update command.
#[derive(Clone, Debug, Default, PartialEq, Eq)]
pub struct ModifyFilterInput {
    /// Optional comment.
    pub comment: Option<String>,
    /// Optional GMP filter term expression.
    pub term: Option<String>,
    /// Optional resource type the filter applies to.
    pub filter_type: Option<String>,
}

/// Tag create command.
#[derive(Clone, Debug, Default, PartialEq, Eq)]
pub struct CreateTagInput {
    /// Required tag name.
    pub name: String,
    /// Optional comment.
    pub comment: Option<String>,
    /// Optional free-form value payload.
    pub value: Option<String>,
    /// Optional related resource type.
    pub resource_type: Option<String>,
    /// Optional related resource identifier.
    pub resource_id: Option<String>,
    /// Whether the tag should be active.
    pub active: Option<bool>,
}

/// Tag update command.
#[derive(Clone, Debug, Default, PartialEq, Eq)]
pub struct ModifyTagInput {
    /// Optional comment.
    pub comment: Option<String>,
    /// Optional free-form value payload.
    pub value: Option<String>,
    /// Optional related resource type.
    pub resource_type: Option<String>,
    /// Optional related resource identifier.
    pub resource_id: Option<String>,
    /// Whether the tag should be active.
    pub active: Option<bool>,
}

/// Host asset create command.
#[derive(Clone, Debug, Default, PartialEq, Eq)]
pub struct CreateHostInput {
    /// Host name or IP address.
    pub value: String,
    /// Optional comment.
    pub comment: Option<String>,
}

/// Host asset update command.
#[derive(Clone, Debug, Default, PartialEq, Eq)]
pub struct ModifyHostInput {
    /// Optional comment.
    ///
    /// The gvmd `modify_asset` command does not update a host asset's name/IP
    /// value, so this input intentionally carries no `value`: a host's
    /// identity cannot be edited and callers must not be able to request it.
    pub comment: Option<String>,
}

/// Domain ticket representation.
#[derive(Clone, Debug, PartialEq, Eq)]
pub struct Ticket {
    /// Shared resource metadata.
    pub meta: SupportingResourceMeta,
    /// Optional ticket status.
    pub status: Option<String>,
    /// Optional assigned user reference.
    pub assigned_to: Option<ResourceRef>,
    /// Optional related result reference.
    pub result: Option<ResourceRef>,
    /// Optional related task reference.
    pub task: Option<ResourceRef>,
    /// Optional note for the open state.
    pub open_note: Option<String>,
    /// Optional note for the fixed state.
    pub fixed_note: Option<String>,
    /// Optional note for the closed state.
    pub closed_note: Option<String>,
}

/// Paginated ticket list response.
#[derive(Clone, Debug, PartialEq, Eq)]
pub struct TicketPage {
    /// Page items.
    pub data: Vec<Ticket>,
    /// Pagination metadata.
    pub pagination: Pagination,
}

/// NVT list query options.
#[derive(Clone, Debug, Default, PartialEq, Eq)]
pub struct NvtQuery {
    /// Optional GMP filter string.
    pub filter_string: Option<String>,
    /// Optional saved filter identifier.
    pub filter_id: Option<String>,
    /// Requested page number.
    pub page: u32,
    /// Requested page size.
    pub per_page: u32,
    /// Whether to include NVT preferences.
    pub include_preferences: Option<bool>,
    /// Whether to include the preference count.
    pub include_preference_count: Option<bool>,
    /// Whether to include the NVT timeout.
    pub include_timeout: Option<bool>,
    /// Optional scan configuration whose selection to report.
    pub config_id: Option<String>,
    /// Optional scan configuration whose preference values to report.
    pub preferences_config_id: Option<String>,
    /// Optional family restriction.
    pub family: Option<String>,
    /// Optional sort order, `ascending` or `descending`.
    pub sort_order: Option<String>,
    /// Optional sort field.
    pub sort_field: Option<String>,
}

/// A sample metadata record: the writable, unused resource
/// `123e4567-e89b-12d3-a456-426614174000` named `resource`, without comment
/// or timestamps.
pub fn resource_meta() -> (meta: SupportingResourceMeta)
    ensures
        meta.id@ == "123e4567-e89b-12d3-a456-426614174000"@,
        meta.name@ == "resource"@,
        meta.comment.is_none(),
        meta.creation_time.is_none(),
        meta.modification_time.is_none(),
        meta.writable,
        !meta.in_use,
{
    SupportingResourceMeta {
        id: String::from_str("123e4567-e89b-12d3-a456-426614174000"),
        name: String::from_str("resource"),
        comment: None,
        creation_time: None,
        modification_time: None,
        writable: true,
        in_use: false,
    }
}

/// A reference to resource `id` without a display name.
pub fn resource_ref(id: &str) -> (r: ResourceRef)
    ensures
        r.id@ == id@,
        r.name.is_none(),
{
    ResourceRef { id: String::from_str(id), name: None }
}

} // verus!
