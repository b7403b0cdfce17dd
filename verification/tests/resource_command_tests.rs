use gvm_gateway::backend::{map_operating_system_delete_error, map_report_detail_error, BackendError, ParseFailure};
use gvm_gateway::domain::alerts::{CreateAlertInput, ModifyAlertInput};
use gvm_gateway::domain::identity::{CreateUserInput, ModifyUserInput};
use gvm_gateway::gvmd::identity::{create_user_command, modify_user_command, HostAccess};
use gvm_gateway::ids::parse_entity_id;
use gvm_gateway::domain::supporting_resources::{CreateFilterInput, CreateHostInput, ModifyFilterInput};
use gvm_gateway::domain::targets::{
    CreateOciImageTargetInput, CreateWebApplicationTargetInput, ModifyOciImageTargetInput,
    ModifyWebApplicationTargetInput,
};
use gvm_gateway::errors::GatewayError;
use gvm_gateway::gvmd::alerts::{create_alert_command, modify_alert_command, AlertPart};
use gvm_gateway::gvmd::reports::report_scope_keyword;
use gvm_gateway::gvmd::scan_configs::{policy_base_message, scan_config_base_message, validated_base};
use gvm_gateway::gvmd::supporting::{create_filter_command, create_host_command, modify_filter_command};
use gvm_gateway::gvmd::targets::{
    create_oci_image_target_command, create_web_application_target_command,
    modify_oci_image_target_command, modify_web_application_target_command,
};

const ID1: &str = "123e4567-e89b-12d3-a456-426614174001";

fn detail(error: GatewayError) -> String {
    error.detail().to_string()
}

fn known_alert_part(part: AlertPart, name: &String) -> Option<GatewayError> {
    let known: &[&str] = match part {
        AlertPart::Event => &["Task run status changed", "New SecInfo arrived"],
        AlertPart::Condition => &["Always", "Severity at least"],
        AlertPart::Method => &["Email", "Syslog"],
    };
    if known.contains(&name.as_str()) {
        None
    } else {
        Some(GatewayError::InvalidInput(format!("unknown {part:?}: {name}")))
    }
}

fn alert_input() -> CreateAlertInput {
    CreateAlertInput {
        name: "a".to_string(),
        event: Some("Task run status changed".to_string()),
        condition: Some("Always".to_string()),
        method: Some("Email".to_string()),
        method_data: vec![
            ("to_address".to_string(), "ops@example.com".to_string()),
            ("from_address".to_string(), "gvm@example.com".to_string()),
        ],
        ..Default::default()
    }
}

#[test]
fn alerts_need_event_condition_and_method_in_order() {
    let command = create_alert_command(&known_alert_part, alert_input()).unwrap();
    assert_eq!(command.method_data[0].name, "from_address");
    assert_eq!(command.method_data[1].name, "to_address");
    assert!(command.event_data.is_empty());
    let missing = CreateAlertInput { event: None, condition: None, ..alert_input() };
    assert_eq!(detail(create_alert_command(&known_alert_part, missing).unwrap_err()), "event is required");
    let missing = CreateAlertInput { condition: None, method: None, ..alert_input() };
    assert_eq!(
        detail(create_alert_command(&known_alert_part, missing).unwrap_err()),
        "condition is required"
    );
    let missing = CreateAlertInput { method: None, ..alert_input() };
    assert_eq!(detail(create_alert_command(&known_alert_part, missing).unwrap_err()), "method is required");
    let unknown = CreateAlertInput { condition: Some("Never".to_string()), ..alert_input() };
    assert_eq!(
        detail(create_alert_command(&known_alert_part, unknown).unwrap_err()),
        "unknown Condition: Never"
    );
    let bad_filter = CreateAlertInput { filter_id: Some("x y".to_string()), ..alert_input() };
    assert_eq!(
        detail(create_alert_command(&known_alert_part, bad_filter).unwrap_err()),
        "invalid resource identifier: x y"
    );
}

#[test]
fn alert_updates_check_what_they_send() {
    let command = modify_alert_command(&known_alert_part, ID1, ModifyAlertInput::default()).unwrap();
    assert_eq!(command.id.as_str(), ID1);
    assert!(command.event.is_none() && command.event_data.is_empty());
    let update = ModifyAlertInput { method: Some("Pigeon".to_string()), ..Default::default() };
    assert_eq!(
        detail(modify_alert_command(&known_alert_part, ID1, update).unwrap_err()),
        "unknown Method: Pigeon"
    );
    assert!(modify_alert_command(&known_alert_part, "", ModifyAlertInput::default()).is_err());
}

fn known_filter_type(name: &String) -> bool {
    name == "task" || name == "result"
}

#[test]
fn filters_need_a_known_type() {
    let command = create_filter_command(
        &known_filter_type,
        CreateFilterInput {
            name: "f".to_string(),
            term: Some("severity>5".to_string()),
            filter_type: Some("result".to_string()),
            ..Default::default()
        },
    )
    .unwrap();
    assert_eq!(command.name.as_deref(), Some("f"));
    assert_eq!(command.filter_type.as_deref(), Some("result"));
    let unknown = ModifyFilterInput { filter_type: Some("planet".to_string()), ..Default::default() };
    assert_eq!(
        detail(modify_filter_command(&known_filter_type, unknown).unwrap_err()),
        "invalid filter type: planet"
    );
    assert!(modify_filter_command(&known_filter_type, ModifyFilterInput::default()).unwrap().name.is_none());
}

#[test]
fn host_assets_keep_value_and_comment() {
    let command = create_host_command(CreateHostInput {
        value: "192.0.2.7".to_string(),
        comment: Some("lab".to_string()),
    });
    assert_eq!(command.value, "192.0.2.7");
    assert_eq!(command.comment.as_deref(), Some("lab"));
}

#[test]
fn specialized_target_commands() {
    let oci = create_oci_image_target_command(CreateOciImageTargetInput {
        name: "images".to_string(),
        image_references: vec!["registry/app:1".to_string()],
        credential_id: Some(ID1.to_string()),
        ..Default::default()
    })
    .unwrap();
    assert_eq!(oci.image_references, vec!["registry/app:1".to_string()]);
    assert_eq!(oci.credential_id.unwrap().as_str(), ID1);
    let modified = modify_oci_image_target_command(ID1, ModifyOciImageTargetInput::default()).unwrap();
    assert!(modified.image_references.is_empty());
    assert!(modify_oci_image_target_command("?", ModifyOciImageTargetInput::default()).is_err());
    let web = create_web_application_target_command(CreateWebApplicationTargetInput {
        name: "web".to_string(),
        urls: vec!["https://example.com".to_string()],
        exclude_urls: vec!["https://example.com/logout".to_string()],
        ..Default::default()
    })
    .unwrap();
    assert_eq!(web.exclude_urls.len(), 1);
    let bad = CreateWebApplicationTargetInput { credential_id: Some("".to_string()), ..Default::default() };
    assert_eq!(
        detail(create_web_application_target_command(bad).unwrap_err()),
        "invalid resource identifier: "
    );
    let modified = modify_web_application_target_command(
        ID1,
        ModifyWebApplicationTargetInput { urls: Some(vec!["https://a".to_string()]), ..Default::default() },
    )
    .unwrap();
    assert_eq!(modified.urls, vec!["https://a".to_string()]);
    assert!(modified.exclude_urls.is_empty());
}

#[test]
fn operating_systems_in_use_conflict_on_delete() {
    let in_use = BackendError::Server { status: 400, message: "Asset is in use".to_string() };
    assert!(matches!(map_operating_system_delete_error(&in_use), GatewayError::Conflict(d) if d == "Asset is in use"));
    let parsed = BackendError::Parse(ParseFailure::ServerError { status: 400, message: "in use".to_string() });
    assert!(matches!(map_operating_system_delete_error(&parsed), GatewayError::Conflict(_)));
    let missing = BackendError::Server { status: 404, message: "gone".to_string() };
    assert!(matches!(map_operating_system_delete_error(&missing), GatewayError::NotFound(_)));
}

#[test]
fn missing_report_detail_commands_are_not_emulated() {
    let missing = BackendError::UnsupportedCommand {
        command: "get_report_hosts".to_string(),
        version: "22.4".to_string(),
        required: "22.8".to_string(),
    };
    assert_eq!(
        detail(map_report_detail_error(&missing, "get_report_hosts", "report hosts")),
        "report hosts are not available because gvmd does not implement `get_report_hosts` on this backend version; the proxy does not emulate unsupported GMP commands"
    );
    let other = BackendError::Server { status: 403, message: "no".to_string() };
    assert!(matches!(map_report_detail_error(&other, "get_report_hosts", "report hosts"), GatewayError::Forbidden(_)));
}

#[test]
fn base_messages_name_their_field() {
    assert_eq!(scan_config_base_message(), "baseScanConfigId must identify an active scan config");
    assert_eq!(
        detail(validated_base(ID1, Err(GatewayError::NotFound(String::new())), policy_base_message()).unwrap_err()),
        "basePolicyId must identify an active policy"
    );
    assert_eq!(report_scope_keyword(), "report_id");
}

fn known_auth_source(name: &String) -> Option<GatewayError> {
    if name == "file" || name == "ldap_connect" {
        None
    } else {
        Some(GatewayError::InvalidInput(format!("invalid authentication type: {name}")))
    }
}

#[test]
fn users_check_roles_then_authentication_source() {
    let input = CreateUserInput {
        name: "alice".to_string(),
        hosts: Some("192.0.2.0/24".to_string()),
        role_ids: vec![ID1.to_string()],
        authentication_type: Some("file".to_string()),
        ..Default::default()
    };
    let command = create_user_command(&known_auth_source, input.clone()).unwrap();
    assert_eq!(command.allowed_hosts.as_deref(), Some("192.0.2.0/24"));
    assert_eq!(command.role_ids[0].as_str(), ID1);
    let bad = CreateUserInput {
        role_ids: vec!["r r".to_string()],
        authentication_type: Some("kerberos".to_string()),
        ..input.clone()
    };
    assert_eq!(detail(create_user_command(&known_auth_source, bad).err().unwrap()), "invalid resource identifier: r r");
    let bad = CreateUserInput { authentication_type: Some("kerberos".to_string()), ..input };
    assert_eq!(
        detail(create_user_command(&known_auth_source, bad).err().unwrap()),
        "invalid authentication type: kerberos"
    );
}

#[test]
fn user_updates_always_send_host_access() {
    let id = parse_entity_id(ID1).unwrap();
    let given = ModifyUserInput { hosts: Some("10.0.0.1".to_string()), ..Default::default() };
    let command = modify_user_command(&known_auth_source, id.clone(), given, Some("deny all")).unwrap();
    assert_eq!(command.host_access, HostAccess::Allow("10.0.0.1".to_string()));
    assert!(command.role_ids.is_none());
    let command = modify_user_command(&known_auth_source, id.clone(), ModifyUserInput::default(), Some("deny all")).unwrap();
    assert_eq!(command.host_access, HostAccess::Keep("deny all"));
    let command = modify_user_command::<_, &str>(&known_auth_source, id.clone(), ModifyUserInput::default(), None).unwrap();
    assert_eq!(command.host_access, HostAccess::Allow(String::new()));
    let roles = ModifyUserInput { role_ids: Some(vec![]), ..Default::default() };
    assert_eq!(modify_user_command::<_, &str>(&known_auth_source, id, roles, None).unwrap().role_ids.unwrap().len(), 0);
}
