//! Tasks and audits: the gvmd command each request becomes.

use vstd::prelude::*;

use crate::domain::tasks::{CreateTaskInput, CreateTaskTarget, ModifyTaskInput, TaskAction};
use crate::errors::{fails_with, ErrorCode, GatewayError};
use crate::ids::{
    all_ids_valid, first_invalid_id_error, ids_match, invalid_id_detail, is_entity_id,
    optional_id_match, optional_id_valid, parse_entity_id, parse_entity_ids,
    parse_optional_entity_id, EntityId,
};
use crate::text::{joined, owned};

verus! {

/// Options shared by every scan-task create command.
#[derive(Clone, Debug)]
pub struct TaskOptions {
    pub comment: Option<String>,
    pub alterable: Option<bool>,
    pub schedule_id: Option<EntityId>,
    pub alert_ids: Vec<EntityId>,
    pub schedule_periods: Option<u32>,
    pub observers: Vec<String>,
    pub preferences: Vec<(String, String)>,
}

/// `options` carries the create command's options unchanged.
pub open spec fn options_match(options: TaskOptions, input: CreateTaskInput) -> bool {
    &&& options.comment == input.comment
    &&& options.alterable == input.alterable
    &&& optional_id_match(options.schedule_id, input.schedule_id)
    &&& ids_match(options.alert_ids@, input.alert_ids@)
    &&& options.schedule_periods == input.schedule_periods
    &&& options.observers@ == input.observers@
    &&& options.preferences@ == input.preferences@
}

/// The gvmd command a task create request becomes, one per target kind.
#[derive(Clone, Debug)]
pub enum CreateTaskCommand {
    Classic {
        name: String,
        config_id: EntityId,
        target_id: EntityId,
        scanner_id: EntityId,
        options: TaskOptions,
    },
    AgentGroup { name: String, agent_group_id: EntityId, scanner_id: EntityId, options: TaskOptions },
    OciImage {
        name: String,
        oci_image_target_id: EntityId,
        scanner_id: EntityId,
        options: TaskOptions,
    },
    WebApplication {
        name: String,
        web_application_target_id: EntityId,
        scanner_id: EntityId,
        options: TaskOptions,
    },
    Import { name: String, comment: Option<String> },
}

/// Whether an import task request sets anything besides name and comment.
pub open spec fn import_has_extras(input: CreateTaskInput) -> bool {
    input.schedule_id.is_some() || input.alert_ids@.len() > 0 || input.alterable.is_some()
        || input.observers@.len() > 0 || input.schedule_periods.is_some()
        || input.preferences@.len() > 0
}

/// Detail of the error for an import task with scan options.
pub open spec fn import_extras_detail() -> Seq<char> {
    "import tasks accept only type, name, and comment"@
}

/// The identifiers a task target names, in the order they are checked.
pub open spec fn target_ids(target: CreateTaskTarget) -> Seq<String> {
    match target {
        CreateTaskTarget::Classic { target_id, scan_config_id, scanner_id } => seq![
            scan_config_id,
            target_id,
            scanner_id,
        ],
        CreateTaskTarget::AgentGroup { agent_group_id, scanner_id } => seq![
            agent_group_id,
            scanner_id,
        ],
        CreateTaskTarget::OciImage { oci_image_target_id, scanner_id } => seq![
            oci_image_target_id,
            scanner_id,
        ],
        CreateTaskTarget::WebApplication { web_application_target_id, scanner_id } => seq![
            web_application_target_id,
            scanner_id,
        ],
        CreateTaskTarget::Import => seq![],
    }
}

/// Whether a task create request is accepted.
pub open spec fn create_task_accepted(input: CreateTaskInput) -> bool {
    &&& optional_id_valid(input.schedule_id)
    &&& all_ids_valid(input.alert_ids@)
    &&& all_ids_valid(target_ids(input.target))
    &&& (input.target is Import ==> !import_has_extras(input))
}

/// `command` is the command that the accepted request `input` becomes.
pub open spec fn create_task_command_matches(command: CreateTaskCommand, input: CreateTaskInput) -> bool {
    match input.target {
        CreateTaskTarget::Classic { target_id, scan_config_id, scanner_id } => command matches CreateTaskCommand::Classic {
            name,
            config_id: c,
            target_id: t,
            scanner_id: s,
            options,
        } && name == input.name && c@ == scan_config_id@ && t@ == target_id@ && s@ == scanner_id@
            && options_match(options, input),
        CreateTaskTarget::AgentGroup { agent_group_id, scanner_id } => command matches CreateTaskCommand::AgentGroup {
            name,
            agent_group_id: g,
            scanner_id: s,
            options,
        } && name == input.name && g@ == agent_group_id@ && s@ == scanner_id@ && options_match(
            options,
            input,
        ),
        CreateTaskTarget::OciImage { oci_image_target_id, scanner_id } => command matches CreateTaskCommand::OciImage {
            name,
            oci_image_target_id: o,
            scanner_id: s,
            options,
        } && name == input.name && o@ == oci_image_target_id@ && s@ == scanner_id@ && options_match(
            options,
            input,
        ),
        CreateTaskTarget::WebApplication { web_application_target_id, scanner_id } => command matches CreateTaskCommand::WebApplication {
            name,
            web_application_target_id: w,
            scanner_id: s,
            options,
        } && name == input.name && w@ == web_application_target_id@ && s@ == scanner_id@
            && options_match(options, input),
        CreateTaskTarget::Import => command matches CreateTaskCommand::Import { name, comment }
            && name == input.name && comment == input.comment,
    }
}

/// Decides the gvmd command for a task create request.
///
/// The schedule and alert identifiers are checked first, then the
/// identifiers the target names; an import task takes nothing but a name
/// and a comment.
pub fn create_task_command(input: CreateTaskInput) -> (result: Result<CreateTaskCommand, GatewayError>)
    ensures
        result is Ok <==> create_task_accepted(input),
        result matches Ok(command) ==> create_task_command_matches(command, input),
        !optional_id_valid(input.schedule_id) ==> fails_with(
            result,
            ErrorCode::InvalidInput,
            invalid_id_detail(input.schedule_id->0@),
        ),
        optional_id_valid(input.schedule_id) && !all_ids_valid(input.alert_ids@)
            ==> first_invalid_id_error(result, input.alert_ids@),
        optional_id_valid(input.schedule_id) && all_ids_valid(input.alert_ids@) && !all_ids_valid(
            target_ids(input.target),
        ) ==> first_invalid_id_error(result, target_ids(input.target)),
        optional_id_valid(input.schedule_id) && all_ids_valid(input.alert_ids@)
            && input.target is Import && import_has_extras(input) ==> fails_with(
            result,
            ErrorCode::InvalidInput,
            import_extras_detail(),
        ),
{
    let schedule_id = parse_optional_entity_id(
        match &input.schedule_id {
            Some(s) => Some(s.as_str()),
            None => None,
        },
    )?;
    let alert_ids = parse_entity_ids(&input.alert_ids)?;
    let ghost alerts = input.alert_ids@;
    let CreateTaskInput {
        name,
        comment,
        target,
        schedule_id: _,
        alert_ids: _,
        alterable,
        observers,
        schedule_periods,
        preferences,
    } = input;
    let ghost t = target;
    match target {
        CreateTaskTarget::Classic { target_id, scan_config_id, scanner_id } => {
            proof {
                assert(target_ids(t)[0] == scan_config_id);
                assert(target_ids(t)[1] == target_id);
                assert(target_ids(t)[2] == scanner_id);
            }
            let config_id = parse_entity_id(scan_config_id.as_str())?;
            let tid = parse_entity_id(target_id.as_str())?;
            let sid = parse_entity_id(scanner_id.as_str())?;
            proof {
                assert(all_ids_valid(target_ids(t)));
            }
            Ok(
                CreateTaskCommand::Classic {
                    name,
                    config_id,
                    target_id: tid,
                    scanner_id: sid,
                    options: TaskOptions {
                        comment,
                        alterable,
                        schedule_id,
                        alert_ids,
                        schedule_periods,
                        observers,
                        preferences,
                    },
                },
            )
        },
        CreateTaskTarget::AgentGroup { agent_group_id, scanner_id } => {
            proof {
                assert(target_ids(t)[0] == agent_group_id);
                assert(target_ids(t)[1] == scanner_id);
            }
            let gid = parse_entity_id(agent_group_id.as_str())?;
            let sid = parse_entity_id(scanner_id.as_str())?;
            proof {
                assert(all_ids_valid(target_ids(t)));
            }
            Ok(
                CreateTaskCommand::AgentGroup {
                    name,
                    agent_group_id: gid,
                    scanner_id: sid,
                    options: TaskOptions {
                        comment,
                        alterable,
                        schedule_id,
                        alert_ids,
                        schedule_periods,
                        observers,
                        preferences,
                    },
                },
            )
        },
        CreateTaskTarget::OciImage { oci_image_target_id, scanner_id } => {
            proof {
                assert(target_ids(t)[0] == oci_image_target_id);
                assert(target_ids(t)[1] == scanner_id);
            }
            let oid = parse_entity_id(oci_image_target_id.as_str())?;
            let sid = parse_entity_id(scanner_id.as_str())?;
            proof {
                assert(all_ids_valid(target_ids(t)));
            }
            Ok(
                CreateTaskCommand::OciImage {
                    name,
                    oci_image_target_id: oid,
                    scanner_id: sid,
                    options: TaskOptions {
                        comment,
                        alterable,
                        schedule_id,
                        alert_ids,
                        schedule_periods,
                        observers,
                        preferences,
                    },
                },
            )
        },
        CreateTaskTarget::WebApplication { web_application_target_id, scanner_id } => {
            proof {
                assert(target_ids(t)[0] == web_application_target_id);
                assert(target_ids(t)[1] == scanner_id);
            }
            let wid = parse_entity_id(web_application_target_id.as_str())?;
            let sid = parse_entity_id(scanner_id.as_str())?;
            proof {
                assert(all_ids_valid(target_ids(t)));
            }
            Ok(
                CreateTaskCommand::WebApplication {
                    name,
                    web_application_target_id: wid,
                    scanner_id: sid,
                    options: TaskOptions {
                        comment,
                        alterable,
                        schedule_id,
                        alert_ids,
                        schedule_periods,
                        observers,
                        preferences,
                    },
                },
            )
        },
        CreateTaskTarget::Import => {
            if schedule_id.is_some() || alert_ids.len() > 0 || alterable.is_some()
                || observers.len() > 0 || schedule_periods.is_some() || preferences.len() > 0 {
                return Err(
                    GatewayError::InvalidInput(
                        owned("import tasks accept only type, name, and comment"),
                    ),
                );
            }
            Ok(CreateTaskCommand::Import { name, comment })
        },
    }
}

/// The gvmd command an audit create request becomes.
#[derive(Clone, Debug)]
pub struct CreateAuditCommand {
    pub name: String,
    pub config_id: EntityId,
    pub target_id: EntityId,
    pub scanner_id: EntityId,
    pub options: TaskOptions,
}

/// Detail of the error for an audit request without a classic target.
pub open spec fn audit_target_detail() -> Seq<char> {
    "audits require targetId, scanConfigId, and scannerId"@
}

/// Decides the gvmd command for an audit create request. Audits scan a
/// classic target only; its identifiers are checked before the schedule
/// and the alerts.
pub fn create_audit_command(input: CreateTaskInput) -> (result: Result<CreateAuditCommand, GatewayError>)
    ensures
        !(input.target is Classic) ==> fails_with(result, ErrorCode::InvalidInput, audit_target_detail()),
        input.target is Classic ==> {
            &&& result is Ok <==> (all_ids_valid(target_ids(input.target)) && optional_id_valid(
                input.schedule_id,
            ) && all_ids_valid(input.alert_ids@))
            &&& !all_ids_valid(target_ids(input.target)) ==> first_invalid_id_error(
                result,
                target_ids(input.target),
            )
            &&& all_ids_valid(target_ids(input.target)) && !optional_id_valid(input.schedule_id)
                ==> fails_with(
                result,
                ErrorCode::InvalidInput,
                invalid_id_detail(input.schedule_id->0@),
            )
            &&& all_ids_valid(target_ids(input.target)) && optional_id_valid(input.schedule_id)
                && !all_ids_valid(input.alert_ids@) ==> first_invalid_id_error(
                result,
                input.alert_ids@,
            )
        },
        result matches Ok(command) ==> (input.target matches CreateTaskTarget::Classic {
            target_id,
            scan_config_id,
            scanner_id,
        } && command.name == input.name && command.config_id@ == scan_config_id@
            && command.target_id@ == target_id@ && command.scanner_id@ == scanner_id@
            && options_match(command.options, input)),
{
    let ghost t = input.target;
    let CreateTaskInput {
        name,
        comment,
        target,
        schedule_id,
        alert_ids,
        alterable,
        observers,
        schedule_periods,
        preferences,
    } = input;
    let (target_id, scan_config_id, scanner_id) = match target {
        CreateTaskTarget::Classic { target_id, scan_config_id, scanner_id } => (
            target_id,
            scan_config_id,
            scanner_id,
        ),
        _ => {
            return Err(GatewayError::InvalidInput(owned("audits require targetId, scanConfigId, and scannerId")));
        },
    };
    proof {
        assert(target_ids(t)[0] == scan_config_id);
        assert(target_ids(t)[1] == target_id);
        assert(target_ids(t)[2] == scanner_id);
    }
    let config_id = parse_entity_id(scan_config_id.as_str())?;
    let tid = parse_entity_id(target_id.as_str())?;
    let sid = parse_entity_id(scanner_id.as_str())?;
    proof {
        assert(all_ids_valid(target_ids(t)));
    }
    let schedule = parse_optional_entity_id(
        match &schedule_id {
            Some(s) => Some(s.as_str()),
            None => None,
        },
    )?;
    let alerts = parse_entity_ids(&alert_ids)?;
    Ok(
        CreateAuditCommand {
            name,
            config_id,
            target_id: tid,
            scanner_id: sid,
            options: TaskOptions {
                comment,
                alterable,
                schedule_id: schedule,
                alert_ids: alerts,
                schedule_periods,
                observers,
                preferences,
            },
        },
    )
}

/// The gvmd command a task or audit update becomes. A `None` schedule or
/// alert list leaves that setting unchanged; the observers are always
/// replaced.
#[derive(Clone, Debug)]
pub struct ModifyTaskCommand {
    pub id: EntityId,
    pub name: Option<String>,
    pub comment: Option<String>,
    pub alterable: Option<bool>,
    pub schedule_id: Option<EntityId>,
    pub schedule_periods: Option<u32>,
    pub target_id: Option<EntityId>,
    pub config_id: Option<EntityId>,
    pub scanner_id: Option<EntityId>,
    pub alert_ids: Option<Vec<EntityId>>,
    pub observers: Vec<String>,
    pub preferences: Vec<(String, String)>,
}

/// Whether the optional alert list is absent or made of well-formed
/// identifiers.
pub open spec fn optional_ids_valid(ids: Option<Vec<String>>) -> bool {
    match ids {
        None => true,
        Some(v) => all_ids_valid(v@),
    }
}

/// Decides the gvmd command for a task or audit update. The identifiers
/// are checked in this order: the resource, target, scan configuration,
/// scanner, schedule, alerts.
pub fn modify_task_command(id: &str, input: ModifyTaskInput) -> (result: Result<ModifyTaskCommand, GatewayError>)
    ensures
        result is Ok <==> (is_entity_id(id@) && optional_id_valid(input.target_id)
            && optional_id_valid(input.scan_config_id) && optional_id_valid(input.scanner_id)
            && optional_id_valid(input.schedule_id) && optional_ids_valid(input.alert_ids)),
        !is_entity_id(id@) ==> fails_with(result, ErrorCode::InvalidInput, invalid_id_detail(id@)),
        is_entity_id(id@) && !optional_id_valid(input.target_id) ==> fails_with(
            result,
            ErrorCode::InvalidInput,
            invalid_id_detail(input.target_id->0@),
        ),
        is_entity_id(id@) && optional_id_valid(input.target_id) && !optional_id_valid(
            input.scan_config_id,
        ) ==> fails_with(
            result,
            ErrorCode::InvalidInput,
            invalid_id_detail(input.scan_config_id->0@),
        ),
        is_entity_id(id@) && optional_id_valid(input.target_id) && optional_id_valid(
            input.scan_config_id,
        ) && !optional_id_valid(input.scanner_id) ==> fails_with(
            result,
            ErrorCode::InvalidInput,
            invalid_id_detail(input.scanner_id->0@),
        ),
        is_entity_id(id@) && optional_id_valid(input.target_id) && optional_id_valid(
            input.scan_config_id,
        ) && optional_id_valid(input.scanner_id) && !optional_id_valid(input.schedule_id)
            ==> fails_with(
            result,
            ErrorCode::InvalidInput,
            invalid_id_detail(input.schedule_id->0@),
        ),
        is_entity_id(id@) && optional_id_valid(input.target_id) && optional_id_valid(
            input.scan_config_id,
        ) && optional_id_valid(input.scanner_id) && optional_id_valid(input.schedule_id)
            && !optional_ids_valid(input.alert_ids) ==> first_invalid_id_error(
            result,
            input.alert_ids->0@,
        ),
        result matches Ok(command) ==> {
            &&& command.id@ == id@
            &&& command.name == input.name
            &&& command.comment == input.comment
            &&& command.alterable == input.alterable
            &&& optional_id_match(command.schedule_id, input.schedule_id)
            &&& command.schedule_periods == input.schedule_periods
            &&& optional_id_match(command.target_id, input.target_id)
            &&& optional_id_match(command.config_id, input.scan_config_id)
            &&& optional_id_match(command.scanner_id, input.scanner_id)
            &&& match input.alert_ids {
                None => command.alert_ids.is_none(),
                Some(v) => command.alert_ids matches Some(p) && ids_match(p@, v@),
            }
            &&& command.observers@ == input.observers@
            &&& command.preferences@ == input.preferences@
        },
{
    let task_id = parse_entity_id(id)?;
    let target_id = parse_optional_entity_id(
        match &input.target_id {
            Some(s) => Some(s.as_str()),
            None => None,
        },
    )?;
    let config_id = parse_optional_entity_id(
        match &input.scan_config_id {
            Some(s) => Some(s.as_str()),
            None => None,
        },
    )?;
    let scanner_id = parse_optional_entity_id(
        match &input.scanner_id {
            Some(s) => Some(s.as_str()),
            None => None,
        },
    )?;
    let schedule_id = parse_optional_entity_id(
        match &input.schedule_id {
            Some(s) => Some(s.as_str()),
            None => None,
        },
    )?;
    let alert_ids = match &input.alert_ids {
        Some(ids) => Some(parse_entity_ids(ids)?),
        None => None,
    };
    Ok(
        ModifyTaskCommand {
            id: task_id,
            name: input.name,
            comment: input.comment,
            alterable: input.alterable,
            schedule_id,
            schedule_periods: input.schedule_periods,
            target_id,
            config_id,
            scanner_id,
            alert_ids,
            observers: input.observers,
            preferences: input.preferences,
        },
    )
}

/// Detail of the error for a start or resume command whose answer lacks
/// the new report's identifier.
pub open spec fn missing_report_id_detail(command: Seq<char>) -> Seq<char> {
    command + " did not return a report_id"@
}

/// The result of a start or resume command (`command` names it, such as
/// `start_task`): the identifier of the report it created, which gvmd
/// must return.
pub fn task_action(command: &str, report_id: Option<String>) -> (result: Result<TaskAction, GatewayError>)
    ensures
        match report_id {
            Some(r) => result matches Ok(action) && action.report_id == r,
            None => fails_with(result, ErrorCode::BackendUnavailable, missing_report_id_detail(command@)),
        },
{
    match report_id {
        Some(r) => Ok(TaskAction { report_id: r }),
        None => Err(GatewayError::BackendUnavailable(joined(command, " did not return a report_id"))),
    }
}

/// The filter that reads audit `id` through the audit-scoped task list, so
/// that a scan task's identifier is not readable as an audit.
pub fn audit_lookup_filter(id: &str) -> (result: Result<String, GatewayError>)
    ensures
        is_entity_id(id@) ==> (result matches Ok(f) && f@ == "uuid="@ + id@),
        !is_entity_id(id@) ==> fails_with(result, ErrorCode::InvalidInput, invalid_id_detail(id@)),
{
    let _ = parse_entity_id(id)?;
    Ok(joined("uuid=", id))
}

} // verus!
