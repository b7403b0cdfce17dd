use gvm_gateway::domain::credentials::{CreateCredentialInput, ModifyCredentialInput};
use gvm_gateway::domain::identity::{CreatePermissionInput, ModifyPermissionInput};
use gvm_gateway::domain::supporting_resources::{
    CreateNoteInput, CreateOverrideInput, CreateTagInput, ModifyNoteInput, ModifyOverrideInput,
    ModifyTagInput,
};
use gvm_gateway::domain::targets::{CreateTargetInput, ModifyTargetInput};
use gvm_gateway::domain::tasks::{CreateTaskInput, CreateTaskTarget, ModifyTaskInput};
use gvm_gateway::errors::GatewayError;
use gvm_gateway::gvmd::credentials::{
    create_credential_command, modify_credential_command, CreateCredentialCommand,
    CredentialStoreCapability, ModifyCredentialCommand,
};
use gvm_gateway::gvmd::identity::{
    create_permission_command, modify_permission_command, PermissionSubjectType,
};
use gvm_gateway::gvmd::lookup::first_or_not_found;
use gvm_gateway::gvmd::supporting::{
    active_days, create_note_command, create_override_command, create_tag_command,
    host_update_comment, modify_note_command, modify_override_command, modify_tag_command,
    CurrentRestrictions,
};
use gvm_gateway::gvmd::targets::{
    create_target_command, default_target_ports, modify_target_command, target_hosts,
    target_update_replaces_hosts, TargetHostLists, TargetPorts,
};
use gvm_gateway::gvmd::tasks::{
    audit_lookup_filter, create_audit_command, create_task_command, modify_task_command,
    task_action, CreateTaskCommand,
};

const ID1: &str = "123e4567-e89b-12d3-a456-426614174001";
const ID2: &str = "123e4567-e89b-12d3-a456-426614174002";
const ID3: &str = "123e4567-e89b-12d3-a456-426614174003";

fn numeric(text: &String) -> bool {
    text.parse::<f64>().is_ok()
}

fn detail(error: GatewayError) -> String {
    error.detail().to_string()
}

fn task_input(target: CreateTaskTarget) -> CreateTaskInput {
    CreateTaskInput {
        name: "Nightly".to_string(),
        comment: Some("c".to_string()),
        target,
        schedule_id: None,
        alert_ids: Vec::new(),
        alterable: None,
        observers: Vec::new(),
        schedule_periods: None,
        preferences: Vec::new(),
    }
}

fn classic() -> CreateTaskTarget {
    CreateTaskTarget::Classic {
        target_id: ID1.to_string(),
        scan_config_id: ID2.to_string(),
        scanner_id: ID3.to_string(),
    }
}

#[test]
fn classic_task_carries_its_identifiers_and_options() {
    let mut input = task_input(classic());
    input.alert_ids = vec![ID1.to_string()];
    input.preferences = vec![("max_hosts".to_string(), "5".to_string())];
    match create_task_command(input).unwrap() {
        CreateTaskCommand::Classic { name, config_id, target_id, scanner_id, options } => {
            assert_eq!(name, "Nightly");
            assert_eq!(config_id.as_str(), ID2);
            assert_eq!(target_id.as_str(), ID1);
            assert_eq!(scanner_id.as_str(), ID3);
            assert_eq!(options.alert_ids.len(), 1);
            assert_eq!(options.preferences, vec![("max_hosts".to_string(), "5".to_string())]);
            assert_eq!(options.comment.as_deref(), Some("c"));
        }
        other => panic!("unexpected {other:?}"),
    }
}

#[test]
fn task_identifiers_are_checked_in_order() {
    let mut input = task_input(CreateTaskTarget::Classic {
        target_id: "bad target".to_string(),
        scan_config_id: "bad config".to_string(),
        scanner_id: ID3.to_string(),
    });
    assert_eq!(
        detail(create_task_command(input.clone()).unwrap_err()),
        "invalid resource identifier: bad config"
    );
    input.alert_ids = vec![ID1.to_string(), "bad alert".to_string()];
    assert_eq!(
        detail(create_task_command(input.clone()).unwrap_err()),
        "invalid resource identifier: bad alert"
    );
    input.schedule_id = Some("bad schedule".to_string());
    assert_eq!(
        detail(create_task_command(input).unwrap_err()),
        "invalid resource identifier: bad schedule"
    );
}

#[test]
fn import_tasks_accept_only_name_and_comment() {
    assert!(matches!(
        create_task_command(task_input(CreateTaskTarget::Import)).unwrap(),
        CreateTaskCommand::Import { .. }
    ));
    let mut input = task_input(CreateTaskTarget::Import);
    input.schedule_periods = Some(2);
    match create_task_command(input) {
        Err(GatewayError::InvalidInput(d)) => {
            assert_eq!(d, "import tasks accept only type, name, and comment")
        }
        other => panic!("unexpected {other:?}"),
    }
}

#[test]
fn specialized_task_targets_keep_their_kind() {
    let input = task_input(CreateTaskTarget::OciImage {
        oci_image_target_id: ID1.to_string(),
        scanner_id: ID2.to_string(),
    });
    assert!(matches!(create_task_command(input).unwrap(), CreateTaskCommand::OciImage { .. }));
    let input = task_input(CreateTaskTarget::AgentGroup {
        agent_group_id: ID1.to_string(),
        scanner_id: "x y".to_string(),
    });
    assert_eq!(detail(create_task_command(input).unwrap_err()), "invalid resource identifier: x y");
}

#[test]
fn audits_need_a_classic_target() {
    match create_audit_command(task_input(CreateTaskTarget::Import)) {
        Err(GatewayError::InvalidInput(d)) => {
            assert_eq!(d, "audits require targetId, scanConfigId, and scannerId")
        }
        other => panic!("unexpected {other:?}"),
    }
    let command = create_audit_command(task_input(classic())).unwrap();
    assert_eq!(command.config_id.as_str(), ID2);
    let mut input = task_input(classic());
    input.schedule_id = Some("?".to_string());
    assert_eq!(detail(create_audit_command(input).unwrap_err()), "invalid resource identifier: ?");
}

#[test]
fn task_updates_replace_observers_and_keep_omitted_settings() {
    let input = ModifyTaskInput {
        name: Some("renamed".to_string()),
        alert_ids: Some(vec![ID2.to_string()]),
        observers: vec!["alice".to_string()],
        ..Default::default()
    };
    let command = modify_task_command(ID1, input).unwrap();
    assert_eq!(command.id.as_str(), ID1);
    assert_eq!(command.name.as_deref(), Some("renamed"));
    assert!(command.schedule_id.is_none());
    assert_eq!(command.alert_ids.unwrap()[0].as_str(), ID2);
    assert_eq!(command.observers, vec!["alice".to_string()]);
    let bad = ModifyTaskInput { scanner_id: Some("no!".to_string()), ..Default::default() };
    assert_eq!(detail(modify_task_command(ID1, bad).unwrap_err()), "invalid resource identifier: no!");
    assert!(modify_task_command("", ModifyTaskInput::default()).is_err());
}

#[test]
fn task_actions_need_a_report_id() {
    assert_eq!(task_action("start_task", Some("r1".to_string())).unwrap().report_id, "r1");
    match task_action("resume_audit", None) {
        Err(GatewayError::BackendUnavailable(d)) => {
            assert_eq!(d, "resume_audit did not return a report_id")
        }
        other => panic!("unexpected {other:?}"),
    }
}

#[test]
fn audit_lookup_is_scoped_to_the_identifier() {
    assert_eq!(audit_lookup_filter(ID1).unwrap(), format!("uuid={ID1}"));
    assert!(audit_lookup_filter("a b").is_err());
}

#[test]
fn lookups_return_the_first_item_or_not_found() {
    assert_eq!(first_or_not_found(vec![3, 4], "task", ID1).unwrap(), 3);
    match first_or_not_found(Vec::<u8>::new(), "task", ID1) {
        Err(GatewayError::NotFound(d)) => assert_eq!(d, format!("task {ID1} not found")),
        other => panic!("unexpected {other:?}"),
    }
}

#[test]
fn target_hosts_report_the_first_refused_host() {
    let lists = target_hosts(
        vec![Ok("10.0.0.1".to_string()), Ok("10.0.0.0/24".to_string())],
        vec![Ok("10.0.0.5".to_string())],
    )
    .unwrap();
    assert_eq!(lists.included, vec!["10.0.0.1".to_string(), "10.0.0.0/24".to_string()]);
    assert_eq!(lists.excluded, vec!["10.0.0.5".to_string()]);
    let refused = target_hosts(
        vec![Ok("a".to_string()), Err("bad host one".to_string()), Err("bad host two".to_string())],
        vec![Err("bad exclusion".to_string())],
    );
    assert_eq!(detail(refused.unwrap_err()), "bad host one");
    let refused = target_hosts(vec![], vec![Err("bad exclusion".to_string())]);
    assert_eq!(detail(refused.unwrap_err()), "bad exclusion");
}

#[test]
fn targets_default_to_all_tcp_ports() {
    assert!(matches!(default_target_ports(), TargetPorts::PortRange(r) if r == "T:1-65535"));
    let hosts = TargetHostLists { included: vec!["h".to_string()], excluded: vec![] };
    let input = CreateTargetInput {
        name: "t".to_string(),
        alive_test: Some("ICMP Ping".to_string()),
        ssh_credential_id: Some(ID1.to_string()),
        ..Default::default()
    };
    let command = create_target_command(input, hosts.clone()).unwrap();
    assert!(matches!(command.ports, TargetPorts::PortRange(ref r) if r == "T:1-65535"));
    assert_eq!(command.credentials.ssh.unwrap().as_str(), ID1);
    let input = CreateTargetInput {
        port_list_id: Some(ID2.to_string()),
        alive_test: Some("Ping".to_string()),
        ..Default::default()
    };
    assert_eq!(detail(create_target_command(input, hosts).unwrap_err()), "invalid alive test: Ping");
}

#[test]
fn target_updates_replace_both_host_lists_together() {
    let only_exclusions = ModifyTargetInput {
        exclude_hosts: Some(vec!["10.0.0.2".to_string()]),
        ..Default::default()
    };
    match target_update_replaces_hosts(ID1, &only_exclusions) {
        Err(GatewayError::InvalidInput(d)) => assert_eq!(
            d,
            "excludeHosts requires hosts so both lists can be replaced atomically"
        ),
        other => panic!("unexpected {other:?}"),
    }
    let with_hosts = ModifyTargetInput { hosts: Some(vec!["h".to_string()]), ..Default::default() };
    let (id, replaces) = target_update_replaces_hosts(ID1, &with_hosts).unwrap();
    assert!(replaces);
    let (_, replaces) = target_update_replaces_hosts(ID1, &ModifyTargetInput::default()).unwrap();
    assert!(!replaces);
    let update = ModifyTargetInput { snmp_credential_id: Some("-".to_string()), ..Default::default() };
    let command = modify_target_command(id, update, None).unwrap();
    assert_eq!(command.credentials.snmp.unwrap().as_str(), "-");
}

#[test]
fn store_backed_credentials_never_carry_local_secrets() {
    let input = CreateCredentialInput {
        name: "vault".to_string(),
        credential_type: "cs_up".to_string(),
        vault_id: Some("v".to_string()),
        host_identifier: Some("h".to_string()),
        ..Default::default()
    };
    assert!(matches!(
        create_credential_command(input.clone(), CredentialStoreCapability::Supported).unwrap(),
        CreateCredentialCommand::StoreBacked { .. }
    ));
    assert!(matches!(
        create_credential_command(input.clone(), CredentialStoreCapability::Unsupported),
        Err(GatewayError::NotImplemented(_))
    ));
    let mixed = CreateCredentialInput { password: Some("secret".to_string()), ..input };
    match create_credential_command(mixed, CredentialStoreCapability::Unknown) {
        Err(GatewayError::InvalidInput(d)) => {
            assert_eq!(d, "credential-store references cannot be combined with local credential values")
        }
        _ => panic!("local secrets must be refused"),
    }
}

#[test]
fn credential_updates_pick_store_or_local_commands() {
    let store = ModifyCredentialInput { vault_id: Some("v2".to_string()), ..Default::default() };
    match modify_credential_command(ID1, store, CredentialStoreCapability::Supported).unwrap() {
        ModifyCredentialCommand::StoreReference { id, vault_id, .. } => {
            assert_eq!(id.as_str(), ID1);
            assert_eq!(vault_id.as_deref(), Some("v2"));
        }
        _ => panic!("a store reference update was expected"),
    }
    let store = ModifyCredentialInput { host_identifier: Some("h".to_string()), ..Default::default() };
    assert!(matches!(
        modify_credential_command(ID1, store, CredentialStoreCapability::Unsupported),
        Err(GatewayError::NotImplemented(_))
    ));
    let local = ModifyCredentialInput { auth_algorithm: Some("sha256".to_string()), ..Default::default() };
    match modify_credential_command(ID1, local, CredentialStoreCapability::Unsupported) {
        Err(e) => assert_eq!(detail(e), "invalid SNMP auth algorithm: sha256"),
        Ok(_) => panic!("sha256 is no SNMP auth algorithm"),
    }
    let local = ModifyCredentialInput { login: Some("root".to_string()), ..Default::default() };
    assert!(matches!(
        modify_credential_command(ID1, local, CredentialStoreCapability::Unsupported).unwrap(),
        ModifyCredentialCommand::Local { .. }
    ));
}

#[test]
fn active_flags_map_to_gvmd_activation_durations() {
    // Canonical note and override requests model gvmd's duration rather than
    // the removed boolean option-bag field: true means forever, false disabled.
    assert_eq!(active_days(true), -1);
    assert_eq!(active_days(false), 0);
}

fn note_with_restrictions() -> CurrentRestrictions {
    CurrentRestrictions {
        text: Some("existing note".to_string()),
        hosts: vec!["192.0.2.1".to_string()],
        port: Some("443/tcp".to_string()),
        severity: Some("7.5".to_string()),
        new_severity: None,
        task_id: Some("123e4567-e89b-12d3-a456-426614174001".to_string()),
        result_id: Some("123e4567-e89b-12d3-a456-426614174002".to_string()),
    }
}

fn override_with_restrictions() -> CurrentRestrictions {
    CurrentRestrictions {
        text: Some("existing override".to_string()),
        hosts: vec!["192.0.2.1".to_string()],
        port: Some("443/tcp".to_string()),
        severity: Some("7.5".to_string()),
        new_severity: Some("2.0".to_string()),
        task_id: Some("123e4567-e89b-12d3-a456-426614174001".to_string()),
        result_id: Some("123e4567-e89b-12d3-a456-426614174002".to_string()),
    }
}

#[test]
fn omitted_note_modify_fields_preserve_existing_restrictions() {
    let request = modify_note_command(
        &numeric,
        ModifyNoteInput { text: Some("updated text".to_string()), ..Default::default() },
        note_with_restrictions(),
    )
    .expect("complete request");

    assert_eq!(request.text, "updated text");
    assert_eq!(request.hosts, vec!["192.0.2.1".to_string()]);
    assert_eq!(request.port.as_deref(), Some("443/tcp"));
    assert_eq!(request.severity.as_deref().map(|s| s.parse::<f64>().unwrap()), Some(7.5));
    assert_eq!(request.task_id.expect("task").as_str(), "123e4567-e89b-12d3-a456-426614174001");
    assert_eq!(request.result_id.expect("result").as_str(), "123e4567-e89b-12d3-a456-426614174002");
}

#[test]
fn omitted_override_modify_fields_preserve_existing_restrictions() {
    let request = modify_override_command(&numeric, ModifyOverrideInput::default(), override_with_restrictions())
        .expect("complete request");

    assert_eq!(request.text, "existing override");
    assert_eq!(request.new_severity.parse::<f64>().unwrap(), 2.0);
    assert_eq!(request.hosts, vec!["192.0.2.1".to_string()]);
    assert_eq!(request.port.as_deref(), Some("443/tcp"));
    assert_eq!(request.severity.as_deref().map(|s| s.parse::<f64>().unwrap()), Some(7.5));
    assert_eq!(request.task_id.expect("task").as_str(), "123e4567-e89b-12d3-a456-426614174001");
    assert_eq!(request.result_id.expect("result").as_str(), "123e4567-e89b-12d3-a456-426614174002");
}

#[test]
fn note_and_override_requests_are_checked_in_order() {
    let missing_text = CreateNoteInput { nvt_oid: "1.2.3".to_string(), ..Default::default() };
    assert_eq!(detail(create_note_command(&numeric, missing_text).unwrap_err()), "text is required");
    let bad_severity = CreateNoteInput {
        nvt_oid: "1.2.3".to_string(),
        text: Some("t".to_string()),
        severity: Some("high".to_string()),
        task_id: Some("bad id".to_string()),
        active: Some(true),
        ..Default::default()
    };
    assert_eq!(
        detail(create_note_command(&numeric, bad_severity).unwrap_err()),
        "severity must be a numeric severity"
    );
    let (oid, note) = create_note_command(
        &numeric,
        CreateNoteInput {
            nvt_oid: "1.2.3".to_string(),
            text: Some("t".to_string()),
            active: Some(false),
            ..Default::default()
        },
    )
    .unwrap();
    assert_eq!(oid, "1.2.3");
    assert_eq!(note.days_active, Some(0));
    let no_new_severity = CreateOverrideInput {
        nvt_oid: "1.2.3".to_string(),
        text: Some("t".to_string()),
        ..Default::default()
    };
    assert_eq!(
        detail(create_override_command(&numeric, no_new_severity).unwrap_err()),
        "newSeverity is required"
    );
    let bad_new_severity = CreateOverrideInput {
        nvt_oid: "1.2.3".to_string(),
        text: Some("t".to_string()),
        new_severity: Some("low".to_string()),
        ..Default::default()
    };
    assert_eq!(
        detail(create_override_command(&numeric, bad_new_severity).unwrap_err()),
        "newSeverity must be a numeric severity"
    );
    let without_text = CurrentRestrictions::default();
    assert_eq!(
        detail(modify_note_command(&numeric, ModifyNoteInput::default(), without_text).unwrap_err()),
        "text is required"
    );
}

#[test]
fn host_updates_keep_the_current_comment() {
    assert_eq!(host_update_comment(None, Some("old".to_string())), "old");
    assert_eq!(host_update_comment(Some(String::new()), Some("old".to_string())), "");
    assert_eq!(host_update_comment(None, None), "");
}

fn known_type(name: &String) -> bool {
    ["task", "target", "report"].contains(&name.as_str())
}

#[test]
fn tags_need_a_known_resource_type() {
    let missing = CreateTagInput { name: "t".to_string(), ..Default::default() };
    assert_eq!(detail(create_tag_command(&known_type, missing).unwrap_err()), "resourceType is required");
    let unknown = CreateTagInput {
        name: "t".to_string(),
        resource_type: Some("planet".to_string()),
        ..Default::default()
    };
    assert_eq!(
        detail(create_tag_command(&known_type, unknown).unwrap_err()),
        "invalid resource type: planet"
    );
    let tag = create_tag_command(
        &known_type,
        CreateTagInput {
            name: "t".to_string(),
            resource_type: Some("task".to_string()),
            resource_id: Some(ID1.to_string()),
            ..Default::default()
        },
    )
    .unwrap();
    assert_eq!(tag.resources.resource_type, "task");
    assert_eq!(tag.resources.resource_ids[0].as_str(), ID1);
    let orphan_id = ModifyTagInput { resource_id: Some(ID1.to_string()), ..Default::default() };
    assert_eq!(
        detail(modify_tag_command(&known_type, orphan_id).unwrap_err()),
        "resourceId requires resourceType"
    );
    assert!(modify_tag_command(&known_type, ModifyTagInput::default()).unwrap().resources.is_none());
}

#[test]
fn permissions_need_name_and_subject() {
    let input = CreatePermissionInput::default();
    assert_eq!(detail(create_permission_command(input).unwrap_err()), "name is required");
    let input = CreatePermissionInput { name: Some("get_tasks".to_string()), ..Default::default() };
    assert_eq!(detail(create_permission_command(input).unwrap_err()), "subjectId is required");
    let input = CreatePermissionInput {
        name: Some("get_tasks".to_string()),
        subject_id: Some(ID1.to_string()),
        ..Default::default()
    };
    assert_eq!(detail(create_permission_command(input).unwrap_err()), "subjectType is required");
    let input = CreatePermissionInput {
        name: Some("get_tasks".to_string()),
        subject_id: Some(ID1.to_string()),
        subject_type: Some("role".to_string()),
        resource_type: Some("task".to_string()),
        ..Default::default()
    };
    assert_eq!(
        detail(create_permission_command(input).unwrap_err()),
        "resourceType requires resourceId"
    );
    let input = CreatePermissionInput {
        name: Some("get_tasks".to_string()),
        subject_id: Some(ID1.to_string()),
        subject_type: Some("group".to_string()),
        resource_id: Some(ID2.to_string()),
        resource_type: Some("task".to_string()),
        ..Default::default()
    };
    let command = create_permission_command(input).unwrap();
    assert_eq!(command.subject_type, PermissionSubjectType::Group);
    assert_eq!(command.resource.unwrap().id.as_str(), ID2);
    let update = ModifyPermissionInput { subject_type: Some("robot".to_string()), ..Default::default() };
    assert_eq!(
        detail(modify_permission_command(ID1, update).unwrap_err()),
        "invalid subject type: robot"
    );
}
