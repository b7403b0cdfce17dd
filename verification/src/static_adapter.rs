//! Stand-in backend used while gvmd is unavailable: it reports readiness
//! and version information and refuses every operational request.

use vstd::prelude::*;

use crate::domain::common::ReadinessStatus;
use crate::domain::credentials::CredentialStore;
use crate::errors::{fails_with, ErrorCode, GatewayError};
use crate::text::{joined, owned};

verus! {

/// Static adapter for system readiness and version information.
#[derive(Clone, Debug)]
pub struct StaticGvmdAdapter {
    ready: bool,
    reason: Option<String>,
    gmp_version: String,
}

/// Resource families that the static adapter refuses.
#[derive(Clone, Copy, Debug, PartialEq, Eq)]
pub enum StaticResource {
    Alerts,
    Audits,
    Credentials,
    Feeds,
    Filters,
    Hosts,
    IdentityResources,
    NoteMutations,
    Notes,
    NvtFamilies,
    Nvts,
    OverrideMutations,
    Overrides,
    Policies,
    PortLists,
    ReportFormats,
    Reports,
    Results,
    ScanConfigs,
    Scanners,
    Schedules,
    Tags,
    Targets,
    Tasks,
    Tickets,
    TlsCertificates,
    Vulnerabilities,
}

/// The name under which each resource family is refused.
pub open spec fn static_resource_name(resource: StaticResource) -> Seq<char> {
    match resource {
        StaticResource::Alerts => "alerts"@,
        StaticResource::Audits => "audits"@,
        StaticResource::Credentials => "credentials"@,
        StaticResource::Feeds => "feeds"@,
        StaticResource::Filters => "filters"@,
        StaticResource::Hosts => "hosts"@,
        StaticResource::IdentityResources => "identity resources"@,
        StaticResource::NoteMutations => "note mutations"@,
        StaticResource::Notes => "notes"@,
        StaticResource::NvtFamilies => "nvt families"@,
        StaticResource::Nvts => "nvts"@,
        StaticResource::OverrideMutations => "override mutations"@,
        StaticResource::Overrides => "overrides"@,
        StaticResource::Policies => "policies"@,
        StaticResource::PortLists => "port lists"@,
        StaticResource::ReportFormats => "report formats"@,
        StaticResource::Reports => "reports"@,
        StaticResource::Results => "results"@,
        StaticResource::ScanConfigs => "scan configs"@,
        StaticResource::Scanners => "scanners"@,
        StaticResource::Schedules => "schedules"@,
        StaticResource::Tags => "tags"@,
        StaticResource::Targets => "targets"@,
        StaticResource::Tasks => "tasks"@,
        StaticResource::Tickets => "tickets"@,
        StaticResource::TlsCertificates => "tls certificates"@,
        StaticResource::Vulnerabilities => "vulnerabilities"@,
    }
}

/// Detail of the refusal of a resource family.
pub open spec fn unsupported_detail(resource: StaticResource) -> Seq<char> {
    "static adapter does not support "@ + static_resource_name(resource)
}

impl StaticGvmdAdapter {
    /// Whether the adapter reports a ready backend.
    pub closed spec fn is_ready(&self) -> bool {
        self.ready
    }

    /// Why the backend is not ready.
    pub closed spec fn reason(&self) -> Option<Seq<char>> {
        match self.reason {
            Some(r) => Some(r@),
            None => None,
        }
    }

    /// The GMP version the adapter reports.
    pub closed spec fn version(&self) -> Seq<char> {
        self.gmp_version@
    }

    /// Creates a ready adapter with the provided GMP version.
    pub fn ready(gmp_version: String) -> (adapter: Self)
        ensures
            adapter.is_ready(),
            adapter.reason().is_none(),
            adapter.version() == gmp_version@,
    {
        StaticGvmdAdapter { ready: true, reason: None, gmp_version }
    }

    /// Creates an unready adapter with a reason and GMP version.
    pub fn not_ready(reason: String, gmp_version: String) -> (adapter: Self)
        ensures
            !adapter.is_ready(),
            adapter.reason() == Some(reason@),
            adapter.version() == gmp_version@,
    {
        StaticGvmdAdapter { ready: false, reason: Some(reason), gmp_version }
    }

    /// Readiness: `ready`, or `notReady` with the recorded reason.
    pub fn readiness(&self) -> (status: ReadinessStatus)
        ensures
            self.is_ready() ==> status.status@ == "ready"@ && status.reason.is_none(),
            !self.is_ready() ==> status.status@ == "notReady"@ && match status.reason {
                Some(r) => self.reason() == Some(r@),
                None => self.reason().is_none(),
            },
    {
        if self.ready {
            ReadinessStatus { status: "ready", reason: None }
        } else {
            ReadinessStatus { status: "notReady", reason: self.reason.clone() }
        }
    }

    /// The GMP version when ready; otherwise the backend is unavailable for
    /// the recorded reason (or because gvmd is unavailable).
    pub fn gmp_version(&self) -> (result: Result<String, GatewayError>)
        ensures
            self.is_ready() ==> (result matches Ok(v) && v@ == self.version()),
            !self.is_ready() ==> fails_with(result, 
                ErrorCode::BackendUnavailable,
                match self.reason() {
                    Some(r) => r,
                    None => "gvmd unavailable"@,
                },
            ),
    {
        if self.ready {
            Ok(self.gmp_version.clone())
        } else {
            match &self.reason {
                Some(r) => Err(GatewayError::BackendUnavailable(r.clone())),
                None => Err(GatewayError::BackendUnavailable(owned("gvmd unavailable"))),
            }
        }
    }

    /// Session authentication succeeds with the reported version when
    /// ready and is refused otherwise.
    pub fn authenticate_session(&self, _session_token: &str, _username: &str, _password: &str) -> (result: Result<String, GatewayError>)
        ensures
            self.is_ready() ==> (result matches Ok(v) && v@ == self.version()),
            !self.is_ready() ==> fails_with(result, 
                ErrorCode::BackendUnavailable,
                "static adapter not ready"@,
            ),
    {
        if self.ready {
            Ok(self.gmp_version.clone())
        } else {
            Err(GatewayError::BackendUnavailable(owned("static adapter not ready")))
        }
    }

    /// Disconnecting a session always succeeds.
    pub fn disconnect_session(&self) -> (result: Result<(), GatewayError>)
        ensures
            result is Ok,
    {
        Ok(())
    }

    /// Listing credential stores is an operational request, which the
    /// stand-in refuses like every other one on credentials.
    pub fn list_credential_stores(&self) -> (result: Result<Vec<CredentialStore>, GatewayError>)
        ensures
            fails_with(result, ErrorCode::BackendUnavailable, unsupported_detail(StaticResource::Credentials)),
    {
        Err(self.unsupported(StaticResource::Credentials))
    }

    /// The refusal of every operation on a resource family.
    pub fn unsupported(&self, resource: StaticResource) -> (e: GatewayError)
        ensures
            e@ == (ErrorCode::BackendUnavailable, unsupported_detail(resource)),
            resource == StaticResource::Alerts ==> e@.1 == "static adapter does not support "@ + "alerts"@,
            resource == StaticResource::Audits ==> e@.1 == "static adapter does not support "@ + "audits"@,
            resource == StaticResource::Credentials ==> e@.1 == "static adapter does not support "@ + "credentials"@,
            resource == StaticResource::Feeds ==> e@.1 == "static adapter does not support "@ + "feeds"@,
            resource == StaticResource::Filters ==> e@.1 == "static adapter does not support "@ + "filters"@,
            resource == StaticResource::Hosts ==> e@.1 == "static adapter does not support "@ + "hosts"@,
            resource == StaticResource::IdentityResources ==> e@.1 == "static adapter does not support "@ + "identity resources"@,
            resource == StaticResource::NoteMutations ==> e@.1 == "static adapter does not support "@ + "note mutations"@,
            resource == StaticResource::Notes ==> e@.1 == "static adapter does not support "@ + "notes"@,
            resource == StaticResource::NvtFamilies ==> e@.1 == "static adapter does not support "@ + "nvt families"@,
            resource == StaticResource::Nvts ==> e@.1 == "static adapter does not support "@ + "nvts"@,
            resource == StaticResource::OverrideMutations ==> e@.1 == "static adapter does not support "@ + "override mutations"@,
            resource == StaticResource::Overrides ==> e@.1 == "static adapter does not support "@ + "overrides"@,
            resource == StaticResource::Policies ==> e@.1 == "static adapter does not support "@ + "policies"@,
            resource == StaticResource::PortLists ==> e@.1 == "static adapter does not support "@ + "port lists"@,
            resource == StaticResource::ReportFormats ==> e@.1 == "static adapter does not support "@ + "report formats"@,
            resource == StaticResource::Reports ==> e@.1 == "static adapter does not support "@ + "reports"@,
            resource == StaticResource::Results ==> e@.1 == "static adapter does not support "@ + "results"@,
            resource == StaticResource::ScanConfigs ==> e@.1 == "static adapter does not support "@ + "scan configs"@,
            resource == StaticResource::Scanners ==> e@.1 == "static adapter does not support "@ + "scanners"@,
            resource == StaticResource::Schedules ==> e@.1 == "static adapter does not support "@ + "schedules"@,
            resource == StaticResource::Tags ==> e@.1 == "static adapter does not support "@ + "tags"@,
            resource == StaticResource::Targets ==> e@.1 == "static adapter does not support "@ + "targets"@,
            resource == StaticResource::Tasks ==> e@.1 == "static adapter does not support "@ + "tasks"@,
            resource == StaticResource::Tickets ==> e@.1 == "static adapter does not support "@ + "tickets"@,
            resource == StaticResource::TlsCertificates ==> e@.1 == "static adapter does not support "@ + "tls certificates"@,
            resource == StaticResource::Vulnerabilities ==> e@.1 == "static adapter does not support "@ + "vulnerabilities"@,
    {
        let name = match resource {
            StaticResource::Alerts => "alerts",
            StaticResource::Audits => "audits",
            StaticResource::Credentials => "credentials",
            StaticResource::Feeds => "feeds",
            StaticResource::Filters => "filters",
            StaticResource::Hosts => "hosts",
            StaticResource::IdentityResources => "identity resources",
            StaticResource::NoteMutations => "note mutations",
            StaticResource::Notes => "notes",
            StaticResource::NvtFamilies => "nvt families",
            StaticResource::Nvts => "nvts",
            StaticResource::OverrideMutations => "override mutations",
            StaticResource::Overrides => "overrides",
            StaticResource::Policies => "policies",
            StaticResource::PortLists => "port lists",
            StaticResource::ReportFormats => "report formats",
            StaticResource::Reports => "reports",
            StaticResource::Results => "results",
            StaticResource::ScanConfigs => "scan configs",
            StaticResource::Scanners => "scanners",
            StaticResource::Schedules => "schedules",
            StaticResource::Tags => "tags",
            StaticResource::Targets => "targets",
            StaticResource::Tasks => "tasks",
            StaticResource::Tickets => "tickets",
            StaticResource::TlsCertificates => "tls certificates",
            StaticResource::Vulnerabilities => "vulnerabilities",
        };
        GatewayError::BackendUnavailable(joined("static adapter does not support ", name))
    }
}

} // verus!
