//! Credential domain types and commands.

use vstd::prelude::*;

use crate::pagination::Pagination;

verus! {

/// Domain credential representation.
#[derive(Clone, Debug, PartialEq, Eq)]
pub struct Credential {
    /// Credential identifier.
    pub id: String,
    /// Credential name.
    pub name: String,
    /// Optional comment.
    pub comment: Option<String>,
    /// Optional type code.
    pub credential_type: Option<String>,
    /// Optional login value.
    pub login: Option<String>,
    /// Whether the credential is in use.
    pub in_use: bool,
    /// Whether the credential is writable.
    pub writable: bool,
}

/// Paginated credential list response.
#[derive(Clone, Debug, PartialEq, Eq)]
pub struct CredentialPage {
    /// Page items.
    pub data: Vec<Credential>,
    /// Pagination metadata.
    pub pagination: Pagination,
}

/// Backend credential store available for new credentials.
#[derive(Clone, Debug, PartialEq, Eq)]
pub struct CredentialStore {
    /// Stable backend identifier.
    pub id: Option<String>,
    /// Human-friendly store name.
    pub name: String,
    /// Optional provider label.
    pub provider: Option<String>,
    /// Whether this is the default store for new credentials.
    pub default: Option<bool>,
    /// Whether clients may write to this store.
    pub writable: Option<bool>,
}

/// Write-only credential-store preference update. Its value is never part
/// of any rendering of the command.
#[derive(Clone, PartialEq, Eq)]
pub struct CredentialStorePreferenceInput {
    /// Preference name.
    pub name: String,
    /// Preference value.
    pub value: String,
}

/// Credential-store update command.
#[derive(Clone, Default, PartialEq, Eq)]
pub struct ModifyCredentialStoreInput {
    /// Whether the store is active.
    pub active: Option<bool>,
    /// Backend host.
    pub host: Option<String>,
    /// Backend path.
    pub path: Option<String>,
    /// Backend port.
    pub port: Option<u16>,
    /// Optional comment.
    pub comment: Option<String>,
    /// Write-only preference updates.
    pub preferences: Vec<CredentialStorePreferenceInput>,
}

/// Credential list query options.
#[derive(Clone, Debug, Default, PartialEq, Eq)]
pub struct CredentialQuery {
    /// Optional GMP filter string.
    pub filter_string: Option<String>,
    /// Optional saved filter identifier.
    pub filter_id: Option<String>,
    /// Requested page number.
    pub page: u32,
    /// Requested page size.
    pub per_page: u32,
}

/// Credential create command.
#[derive(Clone, Default, PartialEq, Eq)]
pub struct CreateCredentialInput {
    /// Credential name.
    pub name: String,
    /// Optional comment.
    pub comment: Option<String>,
    /// Credential type code.
    pub credential_type: String,
    /// Optional login value.
    pub login: Option<String>,
    /// Optional password value.
    pub password: Option<String>,
    /// Optional private key.
    pub private_key: Option<String>,
    /// Optional certificate data.
    pub certificate: Option<String>,
    /// Optional SNMP community.
    pub community: Option<String>,
    /// Optional SNMP auth algorithm.
    pub auth_algorithm: Option<String>,
    /// Optional SNMP privacy algorithm.
    pub privacy_algorithm: Option<String>,
    /// Optional SNMP privacy password.
    pub privacy_password: Option<String>,
    /// Optional credential-store identifier for store-backed credentials.
    pub credential_store_id: Option<String>,
    /// Optional external vault identifier for store-backed credentials.
    pub vault_id: Option<String>,
    /// Optional external host identifier for store-backed credentials.
    pub host_identifier: Option<String>,
}

/// Credential update command.
#[derive(Clone, Default, PartialEq, Eq)]
pub struct ModifyCredentialInput {
    /// Optional name.
    pub name: Option<String>,
    /// Optional comment.
    pub comment: Option<String>,
    /// Optional login value.
    pub login: Option<String>,
    /// Optional password value.
    pub password: Option<String>,
    /// Optional private key.
    pub private_key: Option<String>,
    /// Optional certificate data.
    pub certificate: Option<String>,
    /// Optional SNMP community.
    pub community: Option<String>,
    /// Optional SNMP auth algorithm.
    pub auth_algorithm: Option<String>,
    /// Optional SNMP privacy algorithm.
    pub privacy_algorithm: Option<String>,
    /// Optional SNMP privacy password.
    pub privacy_password: Option<String>,
    /// Optional credential-store identifier for store-backed credentials.
    pub credential_store_id: Option<String>,
    /// Optional external vault identifier for store-backed credentials.
    pub vault_id: Option<String>,
    /// Optional external host identifier for store-backed credentials.
    pub host_identifier: Option<String>,
}

} // verus!
