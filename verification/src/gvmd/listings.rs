//! How each list endpoint asks gvmd for its entries: how it checks a saved
//! filter's identifier, whether it sends a page window, what it adds to
//! the caller's filter and forbids in it, whether it distrusts gvmd's
//! pagination, and in which order it lists the entries.

use vstd::prelude::*;

use crate::errors::GatewayError;
use crate::gvmd::scan_configs::UsageSelection;
use crate::ids::{
    invalid_id_detail, is_entity_id, parse_optional_entity_id, parse_optional_filter_id, EntityId,
};
use crate::pagination::FallbackRule;

verus! {

/// The list endpoints of the gvmd adapter.
#[derive(Clone, Copy, Debug, PartialEq, Eq, Structural)]
pub enum ListEndpoint {
    Agents,
    AgentGroups,
    Alerts,
    Assets,
    Audits,
    CertBundAdvisories,
    Configs,
    Cpes,
    Credentials,
    Cves,
    DfnCertAdvisories,
    Filters,
    Groups,
    Hosts,
    Notes,
    NvtFamilies,
    Nvts,
    OciImageTargets,
    OperatingSystems,
    Overrides,
    Permissions,
    Policies,
    PortLists,
    ReportDetails,
    ReportFormats,
    ReportResults,
    Reports,
    Roles,
    ScanConfigNvts,
    ScanConfigs,
    Scanners,
    Schedules,
    Tags,
    Targets,
    Tasks,
    Tickets,
    TlsCertificates,
    UserSettings,
    Users,
    Vulnerabilities,
    WebApplicationTargets,
}

/// How an endpoint checks the identifier of a saved filter.
#[derive(Clone, Copy, Debug, PartialEq, Eq, Structural)]
pub enum FilterIdCheck {
    /// A malformed identifier is refused as `invalid filterId`.
    Named,
    /// A malformed identifier is refused like any resource identifier.
    Identifier,
    /// The endpoint takes no saved filter.
    NotTaken,
}

/// What an endpoint adds to the caller's filter, and forbids in it.
#[derive(Clone, Copy, Debug, PartialEq, Eq, Structural)]
pub enum FilterScope {
    /// Nothing.
    Plain,
    /// `report_id=<report>`; the caller may not set `report_id`.
    Report,
    /// Nothing, but the caller may not set `report_id`.
    ReportDetail,
    /// The usage-type clause of a generic config list, when it is not a
    /// typed usage; the caller may not set `usage_type` then.
    Usage,
}

/// In which order an endpoint lists its entries.
#[derive(Clone, Copy, Debug, PartialEq, Eq, Structural)]
pub enum ListOrder {
    /// As gvmd returned them.
    AsReturned,
    /// By name.
    Name,
    /// By OID, then name.
    OidThenName,
    /// By usage type, then name, then identifier.
    UsageTypeNameId,
    /// By asset type, then name, then value, then identifier.
    AssetTypeNameValueId,
    /// By name, then IP address, then identifier.
    NameIpId,
}

/// How one list endpoint asks gvmd for its entries. Where `fallback` is
/// `None`, gvmd's answer is the page; otherwise the rule says when the
/// page is cut out of the unpaginated result set instead.
#[derive(Clone, Copy, Debug, PartialEq, Eq, Structural)]
pub struct ListBinding {
    pub filter_id: FilterIdCheck,
    pub paged: bool,
    pub scope: FilterScope,
    pub fallback: Option<FallbackRule>,
    pub order: ListOrder,
}

/// The binding of a paginated endpoint with a named filter-identifier
/// check, no scope, no fallback and gvmd's order.
pub open spec fn plain_binding() -> ListBinding {
    ListBinding {
        filter_id: FilterIdCheck::Named,
        paged: true,
        scope: FilterScope::Plain,
        fallback: None,
        order: ListOrder::AsReturned,
    }
}

/// How each endpoint asks gvmd for its entries.
pub open spec fn binding_of(endpoint: ListEndpoint) -> ListBinding {
    let plain = plain_binding();
    let trusting_fallback = Some(FallbackRule { when_empty: false, when_oversized: false });
    match endpoint {
        ListEndpoint::Agents | ListEndpoint::AgentGroups | ListEndpoint::Targets => ListBinding {
            fallback: trusting_fallback,
            ..plain
        },
        ListEndpoint::OciImageTargets | ListEndpoint::WebApplicationTargets => ListBinding {
            fallback: Some(FallbackRule { when_empty: true, when_oversized: false }),
            ..plain
        },
        ListEndpoint::Nvts => ListBinding {
            fallback: Some(FallbackRule { when_empty: false, when_oversized: true }),
            order: ListOrder::OidThenName,
            ..plain
        },
        ListEndpoint::Configs => ListBinding {
            scope: FilterScope::Usage,
            order: ListOrder::UsageTypeNameId,
            ..plain
        },
        ListEndpoint::Assets => ListBinding { order: ListOrder::AssetTypeNameValueId, ..plain },
        ListEndpoint::Hosts => ListBinding { order: ListOrder::NameIpId, ..plain },
        ListEndpoint::Users | ListEndpoint::Groups | ListEndpoint::Roles
        | ListEndpoint::Permissions => ListBinding { filter_id: FilterIdCheck::Identifier, ..plain },
        ListEndpoint::UserSettings => ListBinding {
            filter_id: FilterIdCheck::Identifier,
            paged: false,
            order: ListOrder::Name,
            ..plain
        },
        ListEndpoint::ReportResults => ListBinding {
            filter_id: FilterIdCheck::Identifier,
            scope: FilterScope::Report,
            ..plain
        },
        ListEndpoint::ReportDetails => ListBinding {
            filter_id: FilterIdCheck::Identifier,
            scope: FilterScope::ReportDetail,
            ..plain
        },
        ListEndpoint::ScanConfigNvts | ListEndpoint::NvtFamilies => ListBinding {
            filter_id: FilterIdCheck::NotTaken,
            paged: false,
            order: ListOrder::Name,
            ..plain
        },
        _ => plain,
    }
}

/// How `endpoint` asks gvmd for its entries.
pub fn list_binding(endpoint: ListEndpoint) -> (binding: ListBinding)
    ensures
        binding == binding_of(endpoint),
{
    let plain = ListBinding {
        filter_id: FilterIdCheck::Named,
        paged: true,
        scope: FilterScope::Plain,
        fallback: None,
        order: ListOrder::AsReturned,
    };
    let trusting_fallback = Some(FallbackRule { when_empty: false, when_oversized: false });
    match endpoint {
        ListEndpoint::Agents | ListEndpoint::AgentGroups | ListEndpoint::Targets => ListBinding {
            fallback: trusting_fallback,
            ..plain
        },
        ListEndpoint::OciImageTargets | ListEndpoint::WebApplicationTargets => ListBinding {
            fallback: Some(FallbackRule { when_empty: true, when_oversized: false }),
            ..plain
        },
        ListEndpoint::Nvts => ListBinding {
            fallback: Some(FallbackRule { when_empty: false, when_oversized: true }),
            order: ListOrder::OidThenName,
            ..plain
        },
        ListEndpoint::Configs => ListBinding {
            scope: FilterScope::Usage,
            order: ListOrder::UsageTypeNameId,
            ..plain
        },
        ListEndpoint::Assets => ListBinding { order: ListOrder::AssetTypeNameValueId, ..plain },
        ListEndpoint::Hosts => ListBinding { order: ListOrder::NameIpId, ..plain },
        ListEndpoint::Users | ListEndpoint::Groups | ListEndpoint::Roles
        | ListEndpoint::Permissions => ListBinding { filter_id: FilterIdCheck::Identifier, ..plain },
        ListEndpoint::UserSettings => ListBinding {
            filter_id: FilterIdCheck::Identifier,
            paged: false,
            order: ListOrder::Name,
            ..plain
        },
        ListEndpoint::ReportResults => ListBinding {
            filter_id: FilterIdCheck::Identifier,
            scope: FilterScope::Report,
            ..plain
        },
        ListEndpoint::ReportDetails => ListBinding {
            filter_id: FilterIdCheck::Identifier,
            scope: FilterScope::ReportDetail,
            ..plain
        },
        ListEndpoint::ScanConfigNvts | ListEndpoint::NvtFamilies => ListBinding {
            filter_id: FilterIdCheck::NotTaken,
            paged: false,
            order: ListOrder::Name,
            ..plain
        },
        _ => plain,
    }
}

/// The keywords the caller's filter may not set, for an endpoint with
/// scope `scope` and, for a generic config list, the usage selection.
pub open spec fn reserved_terms_of(scope: FilterScope, usage: UsageSelection) -> Seq<Seq<char>> {
    match scope {
        FilterScope::Report | FilterScope::ReportDetail => seq!["report_id"@],
        FilterScope::Usage => if usage is Clause {
            seq!["usage_type"@]
        } else {
            seq![]
        },
        FilterScope::Plain => seq![],
    }
}

/// The keywords the caller's filter may not set.
pub fn reserved_terms(scope: FilterScope, usage: &UsageSelection) -> (terms: Vec<&'static str>)
    ensures
        terms@.map_values(|t: &str| t@) == reserved_terms_of(scope, *usage),
{
    let mut terms: Vec<&'static str> = Vec::new();
    let reserve = match scope {
        FilterScope::Report | FilterScope::ReportDetail => Some("report_id"),
        FilterScope::Usage => match usage {
            UsageSelection::Clause(_) => Some("usage_type"),
            _ => None,
        },
        FilterScope::Plain => None,
    };
    if let Some(t) = reserve {
        terms.push(t);
    }
    proof {
        assert(terms@.map_values(|t: &str| t@) =~= reserved_terms_of(scope, *usage));
    }
    terms
}

/// Checks the identifier of a saved filter the way `check` says; an
/// endpoint that takes no saved filter ignores it.
pub fn checked_filter_id(check: FilterIdCheck, value: Option<&str>) -> (result: Result<Option<EntityId>, GatewayError>)
    ensures
        check == FilterIdCheck::NotTaken ==> result matches Ok(None),
        check != FilterIdCheck::NotTaken ==> match value {
            None => result matches Ok(None),
            Some(v) => if is_entity_id(v@) {
                result matches Ok(Some(id)) && id@ == v@
            } else {
                result matches Err(e) && e@ == (
                    crate::errors::ErrorCode::InvalidInput,
                    if check == FilterIdCheck::Named {
                        "invalid filterId"@
                    } else {
                        invalid_id_detail(v@)
                    },
                )
            },
        },
{
    match check {
        FilterIdCheck::Named => parse_optional_filter_id(value),
        FilterIdCheck::Identifier => parse_optional_entity_id(value),
        FilterIdCheck::NotTaken => Ok(None),
    }
}

} // verus!
