//! Target query options and commands.

use vstd::prelude::*;

verus! {

/// Target list query options.
#[derive(Clone, Debug, Default, PartialEq, Eq)]
pub struct TargetQuery {
    /// Optional GMP filter string.
    pub filter_string: Option<String>,
    /// Optional saved filter identifier.
    pub filter_id: Option<String>,
    /// Requested page number.
    pub page: u32,
    /// Requested page size.
    pub per_page: u32,
}

/// List query options for OCI image and web application targets.
#[derive(Clone, Debug, Default, PartialEq, Eq)]
pub struct SpecializedTargetQuery {
    /// Optional GMP filter string.
    pub filter_string: Option<String>,
    /// Optional saved filter identifier.
    pub filter_id: Option<String>,
    /// Requested page number.
    pub page: u32,
    /// Requested page size.
    pub per_page: u32,
    /// Whether to list trashcan entries.
    pub trash: bool,
}

/// Target create command.
#[derive(Clone, Debug, Default, PartialEq, Eq)]
pub struct CreateTargetInput {
    /// Target name.
    pub name: String,
    /// Optional comment.
    pub comment: Option<String>,
    /// Included hosts.
    pub hosts: Vec<String>,
    /// Excluded hosts.
    pub exclude_hosts: Vec<String>,
    /// Optional port list identifier; all TCP ports when absent.
    pub port_list_id: Option<String>,
    /// Optional alive test name.
    pub alive_test: Option<String>,
    /// Optional SSH credential identifier.
    pub ssh_credential_id: Option<String>,
    /// Optional SMB credential identifier.
    pub smb_credential_id: Option<String>,
    /// Optional ESXi credential identifier.
    pub esxi_credential_id: Option<String>,
    /// Optional SNMP credential identifier.
    pub snmp_credential_id: Option<String>,
    /// Optional reverse-lookup-only flag.
    pub reverse_lookup_only: Option<bool>,
    /// Optional reverse-lookup-unify flag.
    pub reverse_lookup_unify: Option<bool>,
}

/// Target update command; omitted fields stay unchanged.
#[derive(Clone, Debug, Default, PartialEq, Eq)]
pub struct ModifyTargetInput {
    /// Optional name.
    pub name: Option<String>,
    /// Optional comment.
    pub comment: Option<String>,
    /// Optional replacement host list.
    pub hosts: Option<Vec<String>>,
    /// Optional replacement exclusion list.
    pub exclude_hosts: Option<Vec<String>>,
    /// Optional reverse-lookup-only flag.
    pub reverse_lookup_only: Option<bool>,
    /// Optional reverse-lookup-unify flag.
    pub reverse_lookup_unify: Option<bool>,
    /// Optional alive test name.
    pub alive_test: Option<String>,
    /// Optional port list identifier.
    pub port_list_id: Option<String>,
    /// Optional SSH credential identifier.
    pub ssh_credential_id: Option<String>,
    /// Optional SMB credential identifier.
    pub smb_credential_id: Option<String>,
    /// Optional ESXi credential identifier.
    pub esxi_credential_id: Option<String>,
    /// Optional SNMP credential identifier.
    pub snmp_credential_id: Option<String>,
}

/// OCI image target create command.
#[derive(Clone, Debug, Default, PartialEq, Eq)]
pub struct CreateOciImageTargetInput {
    /// Target name.
    pub name: String,
    /// Optional comment.
    pub comment: Option<String>,
    /// Image references to scan.
    pub image_references: Vec<String>,
    /// Optional registry credential identifier.
    pub credential_id: Option<String>,
}

/// OCI image target update command.
#[derive(Clone, Debug, Default, PartialEq, Eq)]
pub struct ModifyOciImageTargetInput {
    /// Optional name.
    pub name: Option<String>,
    /// Optional comment.
    pub comment: Option<String>,
    /// Optional replacement image references.
    pub image_references: Option<Vec<String>>,
    /// Optional registry credential identifier.
    pub credential_id: Option<String>,
}

/// Web application target create command.
#[derive(Clone, Debug, Default, PartialEq, Eq)]
pub struct CreateWebApplicationTargetInput {
    /// Target name.
    pub name: String,
    /// Optional comment.
    pub comment: Option<String>,
    /// URLs to scan.
    pub urls: Vec<String>,
    /// URLs to leave out.
    pub exclude_urls: Vec<String>,
    /// Optional credential identifier.
    pub credential_id: Option<String>,
}

/// Web application target update command.
#[derive(Clone, Debug, Default, PartialEq, Eq)]
pub struct ModifyWebApplicationTargetInput {
    /// Optional name.
    pub name: Option<String>,
    /// Optional comment.
    pub comment: Option<String>,
    /// Optional replacement URLs.
    pub urls: Option<Vec<String>>,
    /// Optional replacement exclusions.
    pub exclude_urls: Option<Vec<String>>,
    /// Optional credential identifier.
    pub credential_id: Option<String>,
}

} // verus!
