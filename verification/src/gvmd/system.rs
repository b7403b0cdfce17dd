//! Health, version and agent-related checks of the live adapter.

use vstd::prelude::*;

use crate::domain::common::ReadinessStatus;
use crate::errors::{fails_with, ErrorCode, GatewayError};
use crate::ids::{is_entity_id, parse_entity_ids, EntityId};
use crate::text::{decimal, decimal_text, is_blank, is_blank_text, joined, owned, text_eq};

verus! {

/// Readiness from the outcome of a version probe: `ready` when gvmd
/// answered, `notReady` with the failure's detail otherwise.
pub fn readiness_from_probe(probe: &Result<String, GatewayError>) -> (status: ReadinessStatus)
    ensures
        probe is Ok ==> (status.status@ == "ready"@ && status.reason.is_none()),
        match *probe {
            Err(e) => status.status@ == "notReady"@ && (status.reason matches Some(r) && r@ == e@.1),
            Ok(_) => true,
        },
{
    match probe {
        Ok(_) => ReadinessStatus { status: "ready", reason: None },
        Err(e) => ReadinessStatus { status: "notReady", reason: Some(owned(e.detail())) },
    }
}

/// The GMP version to report: the one gvmd states in its version answer,
/// or, when that is blank, the one negotiated on connecting.
pub fn reported_version(negotiated: String, stated: String) -> (version: String)
    ensures
        is_blank_text(stated@) ==> version == negotiated,
        !is_blank_text(stated@) ==> version == stated,
{
    if is_blank(stated.as_str()) {
        negotiated
    } else {
        stated
    }
}

/// Languages of agent installer instructions.
#[derive(Clone, Copy, Debug, PartialEq, Eq, Structural)]
pub enum AgentInstallerLanguage {
    En,
    De,
}

/// Parses the language of agent installer instructions.
pub fn parse_agent_installer_language(value: &str) -> (result: Result<AgentInstallerLanguage, GatewayError>)
    ensures
        value@ == "en"@ ==> result == Ok::<AgentInstallerLanguage, GatewayError>(AgentInstallerLanguage::En),
        value@ == "de"@ ==> result == Ok::<AgentInstallerLanguage, GatewayError>(AgentInstallerLanguage::De),
        value@ != "en"@ && value@ != "de"@ ==> fails_with(
            result,
            ErrorCode::InvalidInput,
            "language must be one of: en, de"@,
        ),
{
    proof {
        reveal_strlit("en");
        reveal_strlit("de");
        assert("en"@[0] != "de"@[0]);
    }
    if text_eq(value, "en") {
        Ok(AgentInstallerLanguage::En)
    } else if text_eq(value, "de") {
        Ok(AgentInstallerLanguage::De)
    } else {
        Err(GatewayError::InvalidInput(owned("language must be one of: en, de")))
    }
}

/// The largest agent support bundle the gateway passes on, in bytes.
pub const MAX_AGENT_SUPPORT_BUNDLE_BYTES: usize = 16777216;

/// Detail of the error for a support bundle over the limit.
pub open spec fn oversized_bundle_detail() -> Seq<char> {
    "agent support bundle exceeds the "@ + decimal(MAX_AGENT_SUPPORT_BUNDLE_BYTES as nat)
        + " byte gateway limit"@
}

/// Refuses an agent support bundle larger than the gateway limit.
pub fn check_support_bundle_size(size: usize) -> (result: Result<(), GatewayError>)
    ensures
        size <= MAX_AGENT_SUPPORT_BUNDLE_BYTES ==> result is Ok,
        size > MAX_AGENT_SUPPORT_BUNDLE_BYTES ==> fails_with(
            result,
            ErrorCode::BackendUnavailable,
            oversized_bundle_detail(),
        ),
{
    if size > MAX_AGENT_SUPPORT_BUNDLE_BYTES {
        let mut d = owned("agent support bundle exceeds the ");
        d.append(decimal_text(16777216).as_str());
        d.append(" byte gateway limit");
        return Err(GatewayError::BackendUnavailable(d));
    }
    Ok(())
}

/// The agents an agent-group update assigns: the given list, checked, or
/// none when no list is given.
pub fn agent_group_members(agent_ids: &Option<Vec<String>>) -> (result: Result<Vec<EntityId>, GatewayError>)
    ensures
        match *agent_ids {
            None => result matches Ok(v) && v@.len() == 0,
            Some(ids) => match result {
                Ok(v) => v@.len() == ids@.len() && forall|i: int| 0 <= i < ids@.len() ==> #[trigger] v@[i]@ == ids@[i]@,
                Err(e) => exists|i: int|
                    0 <= i < ids@.len() && !is_entity_id(#[trigger] ids@[i]@) && e@ == (
                        ErrorCode::InvalidInput,
                        crate::ids::invalid_id_detail(ids@[i]@),
                    ),
            },
        },
{
    match agent_ids {
        Some(ids) => parse_entity_ids(ids),
        None => Ok(Vec::new()),
    }
}

/// Detail of the error for a port list update that replaces the ranges.
pub open spec fn port_range_replacement_detail() -> Seq<char> {
    "portRange cannot be replaced atomically; update individual port ranges instead"@
}

/// Refuses a port list update that sends a replacement port range: gvmd
/// cannot replace all ranges in one step.
pub fn check_port_list_update(port_range: &Option<String>) -> (result: Result<(), GatewayError>)
    ensures
        port_range.is_none() ==> result is Ok,
        port_range.is_some() ==> fails_with(result, ErrorCode::InvalidInput, port_range_replacement_detail()),
{
    if port_range.is_some() {
        return Err(
            GatewayError::InvalidInput(
                owned("portRange cannot be replaced atomically; update individual port ranges instead"),
            ),
        );
    }
    Ok(())
}

} // verus!
