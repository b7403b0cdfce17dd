//! Users and permissions: the gvmd command each request becomes.
//!
//! Authentication source names are judged by GMP's vocabulary outside this
//! crate; the caller hands in that judgement as a check that gives the
//! refusal for a name it does not accept.

use vstd::prelude::*;

use crate::domain::identity::{
    CreatePermissionInput, CreateUserInput, ModifyPermissionInput, ModifyUserInput,
};
use crate::errors::{fails_with, ErrorCode, GatewayError};
use crate::ids::{
    all_ids_valid, first_invalid_id_error, ids_match, invalid_id_detail, is_entity_id,
    optional_id_match, optional_id_valid, parse_entity_id, parse_entity_ids, parse_optional_id,
    EntityId,
};
use crate::text::{joined, owned, text_eq};

verus! {

/// Kinds of principal a permission is granted to.
#[derive(Clone, Copy, Debug, PartialEq, Eq, Structural)]
pub enum PermissionSubjectType {
    User,
    Group,
    Role,
}

/// The GMP name of each subject kind.
pub open spec fn subject_type_name(t: PermissionSubjectType) -> Seq<char> {
    match t {
        PermissionSubjectType::User => "user"@,
        PermissionSubjectType::Group => "group"@,
        PermissionSubjectType::Role => "role"@,
    }
}

/// Detail of the error for an unknown subject kind.
pub open spec fn invalid_subject_type_detail(value: Seq<char>) -> Seq<char> {
    "invalid subject type: "@ + value
}

/// Parses a permission subject kind by its GMP name.
pub fn parse_permission_subject_type(value: &str) -> (result: Result<PermissionSubjectType, GatewayError>)
    ensures
        value@ == "user"@ ==> result == Ok::<PermissionSubjectType, GatewayError>(PermissionSubjectType::User),
        value@ == "group"@ ==> result == Ok::<PermissionSubjectType, GatewayError>(PermissionSubjectType::Group),
        value@ == "role"@ ==> result == Ok::<PermissionSubjectType, GatewayError>(PermissionSubjectType::Role),
        match result {
            Ok(t) => subject_type_name(t) == value@,
            Err(e) => (forall|t: PermissionSubjectType| subject_type_name(t) != value@) && e@ == (
                ErrorCode::InvalidInput,
                invalid_subject_type_detail(value@),
            ),
        },
{
    proof {
        reveal_strlit("user");
        reveal_strlit("group");
        reveal_strlit("role");
        assert("user"@[0] != "role"@[0]);
        assert("user"@[0] != "group"@[0]);
        assert("user"@ != "group"@);
        assert("user"@ != "role"@);
        assert("group"@[0] != "role"@[0]);
        assert("group"@ != "role"@);
    }
    if text_eq(value, "user") {
        Ok(PermissionSubjectType::User)
    } else if text_eq(value, "group") {
        Ok(PermissionSubjectType::Group)
    } else if text_eq(value, "role") {
        Ok(PermissionSubjectType::Role)
    } else {
        proof {
            assert forall|t: PermissionSubjectType| subject_type_name(t) != value@ by {
                match t {
                    _ => {},
                }
            }
        }
        Err(GatewayError::InvalidInput(joined("invalid subject type: ", value)))
    }
}

/// Whether an optional subject kind is absent or known.
pub open spec fn optional_subject_type_valid(value: Option<String>) -> bool {
    match value {
        None => true,
        Some(v) => exists|t: PermissionSubjectType| subject_type_name(t) == v@,
    }
}

/// The resource a permission is limited to.
#[derive(Clone, Debug)]
pub struct PermissionResource {
    pub id: EntityId,
    pub resource_type: Option<String>,
}

/// The gvmd command a permission create request becomes.
#[derive(Clone, Debug)]
pub struct CreatePermissionCommand {
    pub name: String,
    pub comment: Option<String>,
    pub subject_id: EntityId,
    pub subject_type: PermissionSubjectType,
    pub resource: Option<PermissionResource>,
}

/// Detail of the error for a resource type without a resource.
pub open spec fn resource_type_without_id_detail() -> Seq<char> {
    "resourceType requires resourceId"@
}

/// Decides the gvmd command for a permission create request. The name, the
/// subject's identifier and the subject's kind are required, in this
/// order; a resource type needs a resource identifier.
pub fn create_permission_command(input: CreatePermissionInput) -> (result: Result<CreatePermissionCommand, GatewayError>)
    ensures
        input.name.is_none() ==> fails_with(result, ErrorCode::InvalidInput, "name is required"@),
        input.name.is_some() && input.subject_id.is_none() ==> fails_with(
            result,
            ErrorCode::InvalidInput,
            "subjectId is required"@,
        ),
        input.name.is_some() && input.subject_id.is_some() && !is_entity_id(input.subject_id->0@) ==> fails_with(
            result,
            ErrorCode::InvalidInput,
            invalid_id_detail(input.subject_id->0@),
        ),
        input.name.is_some() && (input.subject_id matches Some(s) && is_entity_id(s@))
            && input.subject_type.is_none() ==> fails_with(
            result,
            ErrorCode::InvalidInput,
            "subjectType is required"@,
        ),
        input.name.is_some() && (input.subject_id matches Some(s) && is_entity_id(s@))
            && input.subject_type.is_some() && !optional_subject_type_valid(input.subject_type)
            ==> fails_with(result, ErrorCode::InvalidInput, invalid_subject_type_detail(input.subject_type->0@)),
        input.name.is_some() && (input.subject_id matches Some(s) && is_entity_id(s@))
            && input.subject_type.is_some() && optional_subject_type_valid(input.subject_type) ==> match input.resource_id {
                Some(r) => if is_entity_id(r@) {
                    result is Ok
                } else {
                    fails_with(result, ErrorCode::InvalidInput, invalid_id_detail(r@))
                },
                None => if input.resource_type.is_some() {
                    fails_with(result, ErrorCode::InvalidInput, resource_type_without_id_detail())
                } else {
                    result is Ok
                },
            },
        result matches Ok(command) ==> {
            &&& input.name == Some(command.name)
            &&& command.comment == input.comment
            &&& (input.subject_id matches Some(s) && command.subject_id@ == s@)
            &&& (input.subject_type matches Some(t) && subject_type_name(command.subject_type) == t@)
            &&& match input.resource_id {
                None => command.resource.is_none(),
                Some(r) => command.resource matches Some(res) && res.id@ == r@ && res.resource_type
                    == input.resource_type,
            }
        },
{
    let name = match input.name {
        Some(n) => n,
        None => {
            return Err(GatewayError::InvalidInput(owned("name is required")));
        },
    };
    let subject_id = match &input.subject_id {
        Some(s) => parse_entity_id(s.as_str())?,
        None => {
            return Err(GatewayError::InvalidInput(owned("subjectId is required")));
        },
    };
    let subject_type = match &input.subject_type {
        Some(t) => parse_permission_subject_type(t.as_str())?,
        None => {
            return Err(GatewayError::InvalidInput(owned("subjectType is required")));
        },
    };
    let resource = match &input.resource_id {
        Some(r) => Some(PermissionResource { id: parse_entity_id(r.as_str())?, resource_type: input.resource_type }),
        None => {
            if input.resource_type.is_some() {
                return Err(GatewayError::InvalidInput(owned("resourceType requires resourceId")));
            }
            None
        },
    };
    Ok(CreatePermissionCommand { name, comment: input.comment, subject_id, subject_type, resource })
}

/// The gvmd command a permission update becomes; `None` leaves a setting
/// unchanged.
#[derive(Clone, Debug)]
pub struct ModifyPermissionCommand {
    pub id: EntityId,
    pub comment: Option<String>,
    pub name: Option<String>,
    pub resource_id: Option<EntityId>,
    pub resource_type: Option<String>,
    pub subject_type: Option<PermissionSubjectType>,
    pub subject_id: Option<EntityId>,
}

/// Decides the gvmd command for a permission update. The identifiers and
/// the subject kind are checked in this order: the permission, the
/// resource, the subject kind, the subject.
pub fn modify_permission_command(id: &str, input: ModifyPermissionInput) -> (result: Result<ModifyPermissionCommand, GatewayError>)
    ensures
        result is Ok <==> (is_entity_id(id@) && optional_id_valid(input.resource_id)
            && optional_subject_type_valid(input.subject_type) && optional_id_valid(input.subject_id)),
        !is_entity_id(id@) ==> fails_with(result, ErrorCode::InvalidInput, invalid_id_detail(id@)),
        is_entity_id(id@) && !optional_id_valid(input.resource_id) ==> fails_with(
            result,
            ErrorCode::InvalidInput,
            invalid_id_detail(input.resource_id->0@),
        ),
        is_entity_id(id@) && optional_id_valid(input.resource_id) && !optional_subject_type_valid(
            input.subject_type,
        ) ==> fails_with(
            result,
            ErrorCode::InvalidInput,
            invalid_subject_type_detail(input.subject_type->0@),
        ),
        is_entity_id(id@) && optional_id_valid(input.resource_id) && optional_subject_type_valid(
            input.subject_type,
        ) && !optional_id_valid(input.subject_id) ==> fails_with(
            result,
            ErrorCode::InvalidInput,
            invalid_id_detail(input.subject_id->0@),
        ),
        result matches Ok(command) ==> {
            &&& command.id@ == id@
            &&& command.comment == input.comment
            &&& command.name == input.name
            &&& optional_id_match(command.resource_id, input.resource_id)
            &&& command.resource_type == input.resource_type
            &&& match input.subject_type {
                None => command.subject_type.is_none(),
                Some(t) => command.subject_type matches Some(x) && subject_type_name(x) == t@,
            }
            &&& optional_id_match(command.subject_id, input.subject_id)
        },
{
    let permission = parse_entity_id(id)?;
    let resource_id = parse_optional_id(&input.resource_id)?;
    let subject_type = match &input.subject_type {
        Some(t) => Some(parse_permission_subject_type(t.as_str())?),
        None => None,
    };
    let subject_id = parse_optional_id(&input.subject_id)?;
    Ok(
        ModifyPermissionCommand {
            id: permission,
            comment: input.comment,
            name: input.name,
            resource_id,
            resource_type: input.resource_type,
            subject_type,
            subject_id,
        },
    )
}

/// The refusal the check gave (or `None` when it accepted) for the
/// authentication source `name`.
pub open spec fn judged_auth_source<F: Fn(&String) -> Option<GatewayError>>(check: F, name: String, verdict: Option<GatewayError>) -> bool {
    check.ensures((&name,), verdict)
}

fn checked_auth_source<F: Fn(&String) -> Option<GatewayError>>(check: &F, value: Option<String>) -> (result: Result<Option<String>, GatewayError>)
    requires
        forall|s: &String| check.requires((s,)),
    ensures
        match value {
            None => result == Ok::<Option<String>, GatewayError>(None),
            Some(v) => match result {
                Ok(r) => r == Some(v) && judged_auth_source(*check, v, None),
                Err(e) => judged_auth_source(*check, v, Some(e)),
            },
        },
{
    match value {
        None => Ok(None),
        Some(v) => match check(&v) {
            None => Ok(Some(v)),
            Some(e) => Err(e),
        },
    }
}

/// The gvmd command a user create request becomes; a user without a host
/// list gets gvmd's default host access. It carries the password, so it has
/// no `Debug` rendering.
#[derive(Clone)]
pub struct CreateUserCommand {
    pub name: String,
    pub comment: Option<String>,
    pub password: Option<String>,
    pub allowed_hosts: Option<String>,
    pub role_ids: Vec<EntityId>,
    pub auth_source: Option<String>,
}

/// Decides the gvmd command for a user create request: the role
/// identifiers are checked, then the authentication source is judged.
pub fn create_user_command<F: Fn(&String) -> Option<GatewayError>>(check: &F, input: CreateUserInput) -> (result: Result<CreateUserCommand, GatewayError>)
    requires
        forall|s: &String| check.requires((s,)),
    ensures
        !all_ids_valid(input.role_ids@) ==> first_invalid_id_error(result, input.role_ids@),
        match result {
            Ok(c) => {
                &&& c.name == input.name
                &&& c.comment == input.comment
                &&& c.password == input.password
                &&& c.allowed_hosts == input.hosts
                &&& ids_match(c.role_ids@, input.role_ids@)
                &&& c.auth_source == input.authentication_type
                &&& (input.authentication_type matches Some(a) ==> judged_auth_source(*check, a, None))
            },
            Err(e) => all_ids_valid(input.role_ids@) ==> (input.authentication_type matches Some(a)
                && judged_auth_source(*check, a, Some(e))),
        },
{
    let role_ids = parse_entity_ids(&input.role_ids)?;
    let auth_source = checked_auth_source(check, input.authentication_type)?;
    Ok(
        CreateUserCommand {
            name: input.name,
            comment: input.comment,
            password: input.password,
            allowed_hosts: input.hosts,
            role_ids,
            auth_source,
        },
    )
}

/// The host access a user update sends: the hosts it allows, or the
/// user's current access `H` as gvmd reported it.
#[derive(Clone, Debug, PartialEq, Eq)]
pub enum HostAccess<H> {
    Allow(String),
    Keep(H),
}

/// The gvmd command a user update becomes. gvmd replaces the host access
/// with every update, so it is always sent; `role_ids` is `None` when the
/// roles stay as they are. It may carry a password, so it has no `Debug`
/// rendering.
#[derive(Clone)]
pub struct ModifyUserCommand<H> {
    pub id: EntityId,
    pub new_name: Option<String>,
    pub comment: Option<String>,
    pub password: Option<String>,
    pub host_access: HostAccess<H>,
    pub role_ids: Option<Vec<EntityId>>,
    pub auth_source: Option<String>,
}

/// `access` is the host access a user update sends: the given host list,
/// else the user's current access (`current`, read only for an update
/// without a host list), else access to no listed host.
pub open spec fn host_access_matches<H>(access: HostAccess<H>, hosts: Option<String>, current: Option<H>) -> bool {
    match hosts {
        Some(h) => access == HostAccess::<H>::Allow(h),
        None => match current {
            Some(c) => access == HostAccess::<H>::Keep(c),
            None => access matches HostAccess::Allow(s) && s@.len() == 0,
        },
    }
}

/// Decides the gvmd command for an update of user `id`, whose identifier
/// was checked and whose current host access was read when the update
/// sends none (`current`). The role identifiers are checked, then the authentication
/// source is judged.
pub fn modify_user_command<F: Fn(&String) -> Option<GatewayError>, H>(
    check: &F,
    id: EntityId,
    input: ModifyUserInput,
    current: Option<H>,
) -> (result: Result<ModifyUserCommand<H>, GatewayError>)
    requires
        forall|s: &String| check.requires((s,)),
    ensures
        (input.role_ids matches Some(r) && !all_ids_valid(r@)) ==> first_invalid_id_error(result, input.role_ids->0@),
        match result {
            Ok(c) => {
                &&& c.id@ == id@
                &&& c.new_name == input.name
                &&& c.comment == input.comment
                &&& c.password == input.password
                &&& host_access_matches(c.host_access, input.hosts, current)
                &&& match input.role_ids {
                    None => c.role_ids.is_none(),
                    Some(r) => c.role_ids matches Some(p) && ids_match(p@, r@),
                }
                &&& c.auth_source == input.authentication_type
                &&& (input.authentication_type matches Some(a) ==> judged_auth_source(*check, a, None))
            },
            Err(e) => !(input.role_ids matches Some(r) && !all_ids_valid(r@)) ==> (
            input.authentication_type matches Some(a) && judged_auth_source(*check, a, Some(e))),
        },
{
    let host_access = match input.hosts {
        Some(h) => HostAccess::Allow(h),
        None => match current {
            Some(c) => HostAccess::Keep(c),
            None => HostAccess::Allow(String::new()),
        },
    };
    let role_ids = match &input.role_ids {
        Some(ids) => Some(parse_entity_ids(ids)?),
        None => None,
    };
    let auth_source = checked_auth_source(check, input.authentication_type)?;
    Ok(
        ModifyUserCommand {
            id,
            new_name: input.name,
            comment: input.comment,
            password: input.password,
            host_access,
            role_ids,
            auth_source,
        },
    )
}

} // verus!
