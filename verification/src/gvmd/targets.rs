//! Targets, OCI image targets and web application targets: the gvmd
//! command each request becomes.
//!
//! Host entries are judged by the GMP host grammar outside this crate;
//! each arrives here as a verdict, the normalized host or the parser's
//! message.

use vstd::prelude::*;

use crate::domain::targets::{
    CreateOciImageTargetInput, CreateTargetInput, CreateWebApplicationTargetInput,
    ModifyOciImageTargetInput, ModifyTargetInput, ModifyWebApplicationTargetInput,
};
use crate::errors::{fails_with, ErrorCode, GatewayError};
use crate::ids::{
    alive_test_name, invalid_alive_test_detail, invalid_id_detail, is_entity_id,
    optional_id_match, optional_id_valid, parse_alive_test, parse_entity_id, parse_optional_id,
    AliveTest, EntityId,
};
use crate::text::owned;

verus! {

/// The included and excluded hosts of a target, each one accepted by the
/// GMP host grammar.
#[derive(Clone, Debug, PartialEq, Eq)]
pub struct TargetHostLists {
    pub included: Vec<String>,
    pub excluded: Vec<String>,
}

/// Whether every verdict accepted its host.
pub open spec fn all_hosts_accepted(verdicts: Seq<Result<String, String>>) -> bool {
    forall|i: int| 0 <= i < verdicts.len() ==> (#[trigger] verdicts[i]) is Ok
}

/// The accepted hosts of a list of verdicts that accepted every host.
pub open spec fn accepted_hosts(verdicts: Seq<Result<String, String>>) -> Seq<Seq<char>> {
    Seq::new(verdicts.len(), |i: int| verdicts[i]->Ok_0@)
}

/// The error for the first host that the grammar refused.
pub open spec fn first_refused_host_error<T>(result: Result<T, GatewayError>, verdicts: Seq<Result<String, String>>) -> bool {
    exists|i: int|
        0 <= i < verdicts.len() && (#[trigger] verdicts[i]) is Err && (forall|j: int|
            0 <= j < i ==> (#[trigger] verdicts[j]) is Ok) && fails_with(
            result,
            ErrorCode::InvalidInput,
            verdicts[i]->Err_0@,
        )
}

fn accepted_host_list(verdicts: Vec<Result<String, String>>) -> (result: Result<Vec<String>, GatewayError>)
    ensures
        result is Ok <==> all_hosts_accepted(verdicts@),
        result matches Ok(hosts) ==> hosts@.map_values(|h: String| h@) == accepted_hosts(verdicts@),
        !all_hosts_accepted(verdicts@) ==> first_refused_host_error(result, verdicts@),
{
    let mut hosts: Vec<String> = Vec::new();
    let n = verdicts.len();
    let mut i: usize = 0;
    while i < n
        invariant
            n == verdicts@.len(),
            i <= n,
            hosts@.len() == i,
            forall|k: int| 0 <= k < i ==> (#[trigger] verdicts@[k]) is Ok,
            forall|k: int| 0 <= k < i ==> #[trigger] hosts@[k]@ == verdicts@[k]->Ok_0@,
        decreases n - i,
    {
        match &verdicts[i] {
            Ok(h) => hosts.push(h.clone()),
            Err(message) => {
                return Err(GatewayError::InvalidInput(message.clone()));
            },
        }
        i = i + 1;
    }
    proof {
        assert(hosts@.map_values(|h: String| h@) =~= accepted_hosts(verdicts@));
    }
    Ok(hosts)
}

/// Builds a target's host lists from the grammar's verdicts on each
/// included and each excluded host; the first refused host, included ones
/// first, fails the request with the grammar's message.
pub fn target_hosts(included: Vec<Result<String, String>>, excluded: Vec<Result<String, String>>) -> (result: Result<TargetHostLists, GatewayError>)
    ensures
        result is Ok <==> (all_hosts_accepted(included@) && all_hosts_accepted(excluded@)),
        !all_hosts_accepted(included@) ==> first_refused_host_error(result, included@),
        all_hosts_accepted(included@) && !all_hosts_accepted(excluded@) ==> first_refused_host_error(result, excluded@),
        result matches Ok(lists) ==> lists.included@.map_values(|h: String| h@) == accepted_hosts(included@)
            && lists.excluded@.map_values(|h: String| h@) == accepted_hosts(excluded@),
{
    let inc = accepted_host_list(included)?;
    let exc = accepted_host_list(excluded)?;
    Ok(TargetHostLists { included: inc, excluded: exc })
}

/// The ports a new target scans.
#[derive(Clone, Debug)]
pub enum TargetPorts {
    /// A port list resource.
    PortList(EntityId),
    /// A port range in GMP notation.
    PortRange(String),
}

/// The port range a target scans when no port list is named: every TCP
/// port.
pub open spec fn all_tcp_ports() -> Seq<char> {
    "T:1-65535"@
}

/// The ports of a target created without a port list: all TCP ports.
pub fn default_target_ports() -> (ports: TargetPorts)
    ensures
        ports matches TargetPorts::PortRange(r) && r@ == all_tcp_ports(),
{
    TargetPorts::PortRange(owned("T:1-65535"))
}

/// Whether an optional alive test name is absent or known.
pub open spec fn optional_alive_test_valid(name: Option<String>) -> bool {
    match name {
        None => true,
        Some(n) => exists|t: AliveTest| alive_test_name(t) == n@,
    }
}

/// `parsed` is the alive test named by `name`.
pub open spec fn optional_alive_test_match(parsed: Option<AliveTest>, name: Option<String>) -> bool {
    match name {
        None => parsed.is_none(),
        Some(n) => parsed matches Some(t) && alive_test_name(t) == n@,
    }
}

fn parse_optional_alive_test(name: &Option<String>) -> (result: Result<Option<AliveTest>, GatewayError>)
    ensures
        result is Ok <==> optional_alive_test_valid(*name),
        result matches Ok(p) ==> optional_alive_test_match(p, *name),
        !optional_alive_test_valid(*name) ==> fails_with(
            result,
            ErrorCode::InvalidInput,
            invalid_alive_test_detail(name->0@),
        ),
{
    match name {
        None => Ok(None),
        Some(n) => match parse_alive_test(n.as_str()) {
            Ok(t) => Ok(Some(t)),
            Err(e) => Err(e),
        },
    }
}

/// The credentials a target uses, one per protocol.
#[derive(Clone, Debug)]
pub struct TargetCredentials {
    pub ssh: Option<EntityId>,
    pub smb: Option<EntityId>,
    pub esxi: Option<EntityId>,
    pub snmp: Option<EntityId>,
}

/// The gvmd command a target create request becomes.
#[derive(Clone, Debug)]
pub struct CreateTargetCommand {
    pub name: String,
    pub comment: Option<String>,
    pub hosts: TargetHostLists,
    pub ports: TargetPorts,
    pub alive_test: Option<AliveTest>,
    pub credentials: TargetCredentials,
    pub reverse_lookup_only: Option<bool>,
    pub reverse_lookup_unify: Option<bool>,
}

/// Decides the gvmd command for a target create request whose hosts were
/// already accepted. The port list, the alive test and the SSH, SMB, ESXi
/// and SNMP credentials are checked in this order; without a port list
/// the target scans all TCP ports.
pub fn create_target_command(input: CreateTargetInput, hosts: TargetHostLists) -> (result: Result<CreateTargetCommand, GatewayError>)
    ensures
        result is Ok <==> (optional_id_valid(input.port_list_id) && optional_alive_test_valid(
            input.alive_test,
        ) && optional_id_valid(input.ssh_credential_id) && optional_id_valid(input.smb_credential_id)
            && optional_id_valid(input.esxi_credential_id) && optional_id_valid(
            input.snmp_credential_id,
        )),
        !optional_id_valid(input.port_list_id) ==> fails_with(
            result,
            ErrorCode::InvalidInput,
            invalid_id_detail(input.port_list_id->0@),
        ),
        optional_id_valid(input.port_list_id) && !optional_alive_test_valid(input.alive_test)
            ==> fails_with(
            result,
            ErrorCode::InvalidInput,
            invalid_alive_test_detail(input.alive_test->0@),
        ),
        optional_id_valid(input.port_list_id) && optional_alive_test_valid(input.alive_test)
            && !optional_id_valid(input.ssh_credential_id) ==> fails_with(
            result,
            ErrorCode::InvalidInput,
            invalid_id_detail(input.ssh_credential_id->0@),
        ),
        optional_id_valid(input.port_list_id) && optional_alive_test_valid(input.alive_test)
            && optional_id_valid(input.ssh_credential_id) && !optional_id_valid(
            input.smb_credential_id,
        ) ==> fails_with(
            result,
            ErrorCode::InvalidInput,
            invalid_id_detail(input.smb_credential_id->0@),
        ),
        optional_id_valid(input.port_list_id) && optional_alive_test_valid(input.alive_test)
            && optional_id_valid(input.ssh_credential_id) && optional_id_valid(
            input.smb_credential_id,
        ) && !optional_id_valid(input.esxi_credential_id) ==> fails_with(
            result,
            ErrorCode::InvalidInput,
            invalid_id_detail(input.esxi_credential_id->0@),
        ),
        optional_id_valid(input.port_list_id) && optional_alive_test_valid(input.alive_test)
            && optional_id_valid(input.ssh_credential_id) && optional_id_valid(
            input.smb_credential_id,
        ) && optional_id_valid(input.esxi_credential_id) && !optional_id_valid(
            input.snmp_credential_id,
        ) ==> fails_with(
            result,
            ErrorCode::InvalidInput,
            invalid_id_detail(input.snmp_credential_id->0@),
        ),
        result matches Ok(command) ==> {
            &&& command.name == input.name
            &&& command.comment == input.comment
            &&& command.hosts == hosts
            &&& match input.port_list_id {
                Some(p) => command.ports matches TargetPorts::PortList(id) && id@ == p@,
                None => command.ports matches TargetPorts::PortRange(r) && r@ == all_tcp_ports(),
            }
            &&& optional_alive_test_match(command.alive_test, input.alive_test)
            &&& optional_id_match(command.credentials.ssh, input.ssh_credential_id)
            &&& optional_id_match(command.credentials.smb, input.smb_credential_id)
            &&& optional_id_match(command.credentials.esxi, input.esxi_credential_id)
            &&& optional_id_match(command.credentials.snmp, input.snmp_credential_id)
            &&& command.reverse_lookup_only == input.reverse_lookup_only
            &&& command.reverse_lookup_unify == input.reverse_lookup_unify
        },
{
    let ports = match parse_optional_id(&input.port_list_id)? {
        Some(id) => TargetPorts::PortList(id),
        None => default_target_ports(),
    };
    let alive_test = parse_optional_alive_test(&input.alive_test)?;
    let ssh = parse_optional_id(&input.ssh_credential_id)?;
    let smb = parse_optional_id(&input.smb_credential_id)?;
    let esxi = parse_optional_id(&input.esxi_credential_id)?;
    let snmp = parse_optional_id(&input.snmp_credential_id)?;
    Ok(
        CreateTargetCommand {
            name: input.name,
            comment: input.comment,
            hosts,
            ports,
            alive_test,
            credentials: TargetCredentials { ssh, smb, esxi, snmp },
            reverse_lookup_only: input.reverse_lookup_only,
            reverse_lookup_unify: input.reverse_lookup_unify,
        },
    )
}

/// Detail of the error for an exclusion list sent without a host list.
pub open spec fn exclude_without_hosts_detail() -> Seq<char> {
    "excludeHosts requires hosts so both lists can be replaced atomically"@
}

/// Checks the identifier of a target update and its host lists, and says
/// whether the update replaces the hosts: it does when it sends a host
/// list. An exclusion list without a host list is refused, since both
/// lists are replaced together.
pub fn target_update_replaces_hosts(id: &str, input: &ModifyTargetInput) -> (result: Result<(EntityId, bool), GatewayError>)
    ensures
        !is_entity_id(id@) ==> fails_with(result, ErrorCode::InvalidInput, invalid_id_detail(id@)),
        is_entity_id(id@) && input.hosts.is_none() && input.exclude_hosts.is_some() ==> fails_with(
            result,
            ErrorCode::InvalidInput,
            exclude_without_hosts_detail(),
        ),
        is_entity_id(id@) && !(input.hosts.is_none() && input.exclude_hosts.is_some()) ==> (result matches Ok(
            (target, replaces),
        ) && target@ == id@ && replaces == input.hosts.is_some()),
{
    let target = parse_entity_id(id)?;
    if input.hosts.is_none() && input.exclude_hosts.is_some() {
        return Err(
            GatewayError::InvalidInput(
                owned("excludeHosts requires hosts so both lists can be replaced atomically"),
            ),
        );
    }
    Ok((target, input.hosts.is_some()))
}

/// The gvmd command a target update becomes; `None` leaves a setting
/// unchanged.
#[derive(Clone, Debug)]
pub struct ModifyTargetCommand {
    pub id: EntityId,
    pub name: Option<String>,
    pub comment: Option<String>,
    pub hosts: Option<TargetHostLists>,
    pub reverse_lookup_only: Option<bool>,
    pub reverse_lookup_unify: Option<bool>,
    pub alive_test: Option<AliveTest>,
    pub port_list_id: Option<EntityId>,
    pub credentials: TargetCredentials,
}

/// Decides the gvmd command for a target update whose identifier and
/// hosts were already checked. The alive test, the port list and the SSH,
/// SMB, ESXi and SNMP credentials are checked in this order.
pub fn modify_target_command(id: EntityId, input: ModifyTargetInput, hosts: Option<TargetHostLists>) -> (result: Result<ModifyTargetCommand, GatewayError>)
    ensures
        result is Ok <==> (optional_alive_test_valid(input.alive_test) && optional_id_valid(
            input.port_list_id,
        ) && optional_id_valid(input.ssh_credential_id) && optional_id_valid(input.smb_credential_id)
            && optional_id_valid(input.esxi_credential_id) && optional_id_valid(
            input.snmp_credential_id,
        )),
        !optional_alive_test_valid(input.alive_test) ==> fails_with(
            result,
            ErrorCode::InvalidInput,
            invalid_alive_test_detail(input.alive_test->0@),
        ),
        optional_alive_test_valid(input.alive_test) && !optional_id_valid(input.port_list_id)
            ==> fails_with(
            result,
            ErrorCode::InvalidInput,
            invalid_id_detail(input.port_list_id->0@),
        ),
        optional_alive_test_valid(input.alive_test) && optional_id_valid(input.port_list_id)
            && !optional_id_valid(input.ssh_credential_id) ==> fails_with(
            result,
            ErrorCode::InvalidInput,
            invalid_id_detail(input.ssh_credential_id->0@),
        ),
        optional_alive_test_valid(input.alive_test) && optional_id_valid(input.port_list_id)
            && optional_id_valid(input.ssh_credential_id) && !optional_id_valid(
            input.smb_credential_id,
        ) ==> fails_with(
            result,
            ErrorCode::InvalidInput,
            invalid_id_detail(input.smb_credential_id->0@),
        ),
        optional_alive_test_valid(input.alive_test) && optional_id_valid(input.port_list_id)
            && optional_id_valid(input.ssh_credential_id) && optional_id_valid(
            input.smb_credential_id,
        ) && !optional_id_valid(input.esxi_credential_id) ==> fails_with(
            result,
            ErrorCode::InvalidInput,
            invalid_id_detail(input.esxi_credential_id->0@),
        ),
        optional_alive_test_valid(input.alive_test) && optional_id_valid(input.port_list_id)
            && optional_id_valid(input.ssh_credential_id) && optional_id_valid(
            input.smb_credential_id,
        ) && optional_id_valid(input.esxi_credential_id) && !optional_id_valid(
            input.snmp_credential_id,
        ) ==> fails_with(
            result,
            ErrorCode::InvalidInput,
            invalid_id_detail(input.snmp_credential_id->0@),
        ),
        result matches Ok(command) ==> {
            &&& command.id@ == id@
            &&& command.name == input.name
            &&& command.comment == input.comment
            &&& command.hosts == hosts
            &&& command.reverse_lookup_only == input.reverse_lookup_only
            &&& command.reverse_lookup_unify == input.reverse_lookup_unify
            &&& optional_alive_test_match(command.alive_test, input.alive_test)
            &&& optional_id_match(command.port_list_id, input.port_list_id)
            &&& optional_id_match(command.credentials.ssh, input.ssh_credential_id)
            &&& optional_id_match(command.credentials.smb, input.smb_credential_id)
            &&& optional_id_match(command.credentials.esxi, input.esxi_credential_id)
            &&& optional_id_match(command.credentials.snmp, input.snmp_credential_id)
        },
{
    let alive_test = parse_optional_alive_test(&input.alive_test)?;
    let port_list_id = parse_optional_id(&input.port_list_id)?;
    let ssh = parse_optional_id(&input.ssh_credential_id)?;
    let smb = parse_optional_id(&input.smb_credential_id)?;
    let esxi = parse_optional_id(&input.esxi_credential_id)?;
    let snmp = parse_optional_id(&input.snmp_credential_id)?;
    Ok(
        ModifyTargetCommand {
            id,
            name: input.name,
            comment: input.comment,
            hosts,
            reverse_lookup_only: input.reverse_lookup_only,
            reverse_lookup_unify: input.reverse_lookup_unify,
            alive_test,
            port_list_id,
            credentials: TargetCredentials { ssh, smb, esxi, snmp },
        },
    )
}

/// The gvmd command an OCI image target create request becomes.
#[derive(Clone, Debug)]
pub struct CreateOciImageTargetCommand {
    pub name: String,
    pub comment: Option<String>,
    pub image_references: Vec<String>,
    pub credential_id: Option<EntityId>,
}

/// Decides the gvmd command for an OCI image target create request.
pub fn create_oci_image_target_command(input: CreateOciImageTargetInput) -> (result: Result<CreateOciImageTargetCommand, GatewayError>)
    ensures
        result is Ok <==> optional_id_valid(input.credential_id),
        !optional_id_valid(input.credential_id) ==> fails_with(
            result,
            ErrorCode::InvalidInput,
            invalid_id_detail(input.credential_id->0@),
        ),
        result matches Ok(command) ==> command.name == input.name && command.comment
            == input.comment && command.image_references@ == input.image_references@
            && optional_id_match(command.credential_id, input.credential_id),
{
    let credential_id = parse_optional_id(&input.credential_id)?;
    Ok(
        CreateOciImageTargetCommand {
            name: input.name,
            comment: input.comment,
            image_references: input.image_references,
            credential_id,
        },
    )
}

/// The gvmd command an OCI image target update becomes; an absent image
/// list is sent as an empty one.
#[derive(Clone, Debug)]
pub struct ModifyOciImageTargetCommand {
    pub id: EntityId,
    pub name: Option<String>,
    pub comment: Option<String>,
    pub image_references: Vec<String>,
    pub credential_id: Option<EntityId>,
}

/// Decides the gvmd command for an OCI image target update.
pub fn modify_oci_image_target_command(id: &str, input: ModifyOciImageTargetInput) -> (result: Result<ModifyOciImageTargetCommand, GatewayError>)
    ensures
        result is Ok <==> (is_entity_id(id@) && optional_id_valid(input.credential_id)),
        !is_entity_id(id@) ==> fails_with(result, ErrorCode::InvalidInput, invalid_id_detail(id@)),
        is_entity_id(id@) && !optional_id_valid(input.credential_id) ==> fails_with(
            result,
            ErrorCode::InvalidInput,
            invalid_id_detail(input.credential_id->0@),
        ),
        result matches Ok(command) ==> command.id@ == id@ && command.name == input.name
            && command.comment == input.comment && command.image_references@ == match input.image_references {
                Some(v) => v@,
                None => Seq::<String>::empty(),
            } && optional_id_match(command.credential_id, input.credential_id),
{
    let target = parse_entity_id(id)?;
    let credential_id = parse_optional_id(&input.credential_id)?;
    let image_references = match input.image_references {
        Some(v) => v,
        None => Vec::new(),
    };
    Ok(
        ModifyOciImageTargetCommand {
            id: target,
            name: input.name,
            comment: input.comment,
            image_references,
            credential_id,
        },
    )
}

/// The gvmd command a web application target create request becomes.
#[derive(Clone, Debug)]
pub struct CreateWebApplicationTargetCommand {
    pub name: String,
    pub comment: Option<String>,
    pub urls: Vec<String>,
    pub exclude_urls: Vec<String>,
    pub credential_id: Option<EntityId>,
}

/// Decides the gvmd command for a web application target create request.
pub fn create_web_application_target_command(input: CreateWebApplicationTargetInput) -> (result: Result<CreateWebApplicationTargetCommand, GatewayError>)
    ensures
        result is Ok <==> optional_id_valid(input.credential_id),
        !optional_id_valid(input.credential_id) ==> fails_with(
            result,
            ErrorCode::InvalidInput,
            invalid_id_detail(input.credential_id->0@),
        ),
        result matches Ok(command) ==> command.name == input.name && command.comment
            == input.comment && command.urls@ == input.urls@ && command.exclude_urls@
            == input.exclude_urls@ && optional_id_match(command.credential_id, input.credential_id),
{
    let credential_id = parse_optional_id(&input.credential_id)?;
    Ok(
        CreateWebApplicationTargetCommand {
            name: input.name,
            comment: input.comment,
            urls: input.urls,
            exclude_urls: input.exclude_urls,
            credential_id,
        },
    )
}

/// The gvmd command a web application target update becomes; absent URL
/// lists are sent as empty ones.
#[derive(Clone, Debug)]
pub struct ModifyWebApplicationTargetCommand {
    pub id: EntityId,
    pub name: Option<String>,
    pub comment: Option<String>,
    pub urls: Vec<String>,
    pub exclude_urls: Vec<String>,
    pub credential_id: Option<EntityId>,
}

/// Decides the gvmd command for a web application target update.
pub fn modify_web_application_target_command(id: &str, input: ModifyWebApplicationTargetInput) -> (result: Result<ModifyWebApplicationTargetCommand, GatewayError>)
    ensures
        result is Ok <==> (is_entity_id(id@) && optional_id_valid(input.credential_id)),
        !is_entity_id(id@) ==> fails_with(result, ErrorCode::InvalidInput, invalid_id_detail(id@)),
        is_entity_id(id@) && !optional_id_valid(input.credential_id) ==> fails_with(
            result,
            ErrorCode::InvalidInput,
            invalid_id_detail(input.credential_id->0@),
        ),
        result matches Ok(command) ==> command.id@ == id@ && command.name == input.name
            && command.comment == input.comment && command.urls@ == match input.urls {
                Some(v) => v@,
                None => Seq::<String>::empty(),
            } && command.exclude_urls@ == match input.exclude_urls {
                Some(v) => v@,
                None => Seq::<String>::empty(),
            } && optional_id_match(command.credential_id, input.credential_id),
{
    let target = parse_entity_id(id)?;
    let credential_id = parse_optional_id(&input.credential_id)?;
    let urls = match input.urls {
        Some(v) => v,
        None => Vec::new(),
    };
    let exclude_urls = match input.exclude_urls {
        Some(v) => v,
        None => Vec::new(),
    };
    Ok(
        ModifyWebApplicationTargetCommand {
            id: target,
            name: input.name,
            comment: input.comment,
            urls,
            exclude_urls,
            credential_id,
        },
    )
}

} // verus!
