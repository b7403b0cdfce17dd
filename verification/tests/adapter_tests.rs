use gvm_gateway::domain::ports::specialized_targets_not_implemented;
use gvm_gateway::domain::supporting_resources::NvtQuery;
use gvm_gateway::errors::GatewayError;
use gvm_gateway::gvmd::credentials::{
    capability_after_probe, credential_store_probe_outcome, CredentialStoreCapability,
};
use gvm_gateway::gvmd::nvts::{backend_ignored_pagination, nvt_opts, selected_nvt};
use gvm_gateway::gvmd::reports::{embedded_results_filter, report_scope_clause};
use gvm_gateway::gvmd::scan_configs::{
    config_usage_selection, families_to_list, first_with_usage, preference_target,
    validated_base, ConfigUsage, PreferenceTarget, UsageSelection,
};
use gvm_gateway::gvmd::system::{
    agent_group_members, check_port_list_update, check_support_bundle_size,
    parse_agent_installer_language, readiness_from_probe, reported_version,
    AgentInstallerLanguage,
};
use gvm_gateway::backend::BackendError;
use gvm_gateway::static_adapter::{StaticGvmdAdapter, StaticResource};

const ID1: &str = "123e4567-e89b-12d3-a456-426614174001";

fn detail(error: GatewayError) -> String {
    error.detail().to_string()
}

#[test]
fn nvt_options_check_sort_order_and_configs() {
    let query = NvtQuery {
        sort_order: Some("descending".to_string()),
        config_id: Some(ID1.to_string()),
        family: Some("General".to_string()),
        ..Default::default()
    };
    let opts = nvt_opts(&query, Some("first=1 rows=5".to_string())).unwrap();
    assert!(opts.details);
    assert_eq!(opts.config_id.unwrap().as_str(), ID1);
    assert_eq!(opts.family.as_deref(), Some("General"));
    assert_eq!(opts.filter_string.as_deref(), Some("first=1 rows=5"));
    let bad_order = NvtQuery { sort_order: Some("up".to_string()), ..Default::default() };
    assert_eq!(
        detail(nvt_opts(&bad_order, None).unwrap_err()),
        "sortOrder must be ascending or descending"
    );
    let bad_config = NvtQuery { preferences_config_id: Some("%".to_string()), ..Default::default() };
    assert_eq!(detail(nvt_opts(&bad_config, None).unwrap_err()), "invalid preferencesConfigId");
}

#[test]
fn oversized_answers_mean_ignored_pagination() {
    assert!(backend_ignored_pagination(26, 25));
    assert!(!backend_ignored_pagination(25, 25));
}

#[test]
fn selected_nvt_finds_the_oid() {
    let entries = vec![("1.2".to_string(), 'a'), ("1.3".to_string(), 'b'), ("1.3".to_string(), 'c')];
    assert_eq!(selected_nvt(entries.clone(), "1.3", ID1).unwrap(), 'b');
    match selected_nvt(entries, "9.9", ID1) {
        Err(GatewayError::NotFound(d)) => {
            assert_eq!(d, format!("NVT 9.9 not selected by scan config {ID1}"))
        }
        other => panic!("unexpected {other:?}"),
    }
}

#[test]
fn config_usage_selects_typed_or_filtered() {
    assert_eq!(config_usage_selection(None), UsageSelection::All);
    assert_eq!(config_usage_selection(Some("scan")), UsageSelection::Typed(ConfigUsage::Scan));
    assert_eq!(config_usage_selection(Some("policy")), UsageSelection::Typed(ConfigUsage::Policy));
    assert_eq!(
        config_usage_selection(Some("audit")),
        UsageSelection::Clause("usage_type=audit".to_string())
    );
}

#[test]
fn scan_configs_and_policies_stay_apart() {
    let scan = vec![(Some("scan".to_string()), 1)];
    assert_eq!(first_with_usage(scan.clone(), "scan", "scan config", ID1).unwrap(), 1);
    match first_with_usage(scan, "policy", "policy", ID1) {
        Err(GatewayError::NotFound(d)) => assert_eq!(d, format!("policy {ID1} not found")),
        other => panic!("unexpected {other:?}"),
    }
    assert!(first_with_usage(Vec::<(Option<String>, u8)>::new(), "scan", "scan config", ID1).is_err());
    assert!(first_with_usage(vec![(None, 1)], "scan", "scan config", ID1).is_err());
}

#[test]
fn config_bases_must_be_active() {
    let message = "baseScanConfigId must identify an active scan config";
    assert_eq!(validated_base(ID1, Ok(()), message).unwrap().as_str(), ID1);
    assert_eq!(
        detail(validated_base(ID1, Err(GatewayError::NotFound("x".to_string())), message).unwrap_err()),
        message
    );
    assert!(matches!(
        validated_base(ID1, Err(GatewayError::Forbidden("no".to_string())), message),
        Err(GatewayError::Forbidden(_))
    ));
    assert_eq!(
        detail(validated_base("a b", Ok(()), message).unwrap_err()),
        "invalid resource identifier: a b"
    );
}

#[test]
fn preference_updates_pick_nvt_or_scanner() {
    assert!(matches!(preference_target(ID1, None).unwrap().1, PreferenceTarget::Scanner));
    assert!(matches!(
        preference_target(ID1, Some("1.2".to_string())).unwrap().1,
        PreferenceTarget::Nvt(ref o) if o == "1.2"
    ));
    assert_eq!(
        families_to_list(Some("General".to_string()), vec!["A".to_string()]),
        vec!["General".to_string()]
    );
    assert_eq!(families_to_list(None, vec!["A".to_string()]), vec!["A".to_string()]);
}

#[test]
fn report_scope_filters() {
    assert_eq!(report_scope_clause(ID1).unwrap(), format!("report_id={ID1}"));
    assert_eq!(
        embedded_results_filter(ID1, 1, 25).unwrap(),
        format!("report_id={ID1} first=1 rows=25")
    );
    assert!(report_scope_clause("x y").is_err());
}

#[test]
fn readiness_follows_the_version_probe() {
    let ready = readiness_from_probe(&Ok("22.7".to_string()));
    assert_eq!(ready.status, "ready");
    assert!(ready.reason.is_none());
    let down = readiness_from_probe(&Err(GatewayError::BackendUnavailable("gvmd offline".to_string())));
    assert_eq!(down.status, "notReady");
    assert_eq!(down.reason.as_deref(), Some("gvmd offline"));
    assert_eq!(reported_version("22.7".to_string(), "  ".to_string()), "22.7");
    assert_eq!(reported_version("22.7".to_string(), "22.8".to_string()), "22.8");
}

#[test]
fn agent_checks() {
    assert_eq!(parse_agent_installer_language("de").unwrap(), AgentInstallerLanguage::De);
    assert_eq!(
        detail(parse_agent_installer_language("fr").unwrap_err()),
        "language must be one of: en, de"
    );
    assert!(check_support_bundle_size(16 * 1024 * 1024).is_ok());
    assert_eq!(
        detail(check_support_bundle_size(16 * 1024 * 1024 + 1).unwrap_err()),
        "agent support bundle exceeds the 16777216 byte gateway limit"
    );
    assert!(agent_group_members(&None).unwrap().is_empty());
    assert_eq!(agent_group_members(&Some(vec![ID1.to_string()])).unwrap()[0].as_str(), ID1);
    assert!(agent_group_members(&Some(vec!["?".to_string()])).is_err());
    assert!(check_port_list_update(&None).is_ok());
    assert_eq!(
        detail(check_port_list_update(&Some("T:1-10".to_string())).unwrap_err()),
        "portRange cannot be replaced atomically; update individual port ranges instead"
    );
}

#[test]
fn credential_store_probe_classification() {
    let ok = credential_store_probe_outcome(Ok(())).unwrap();
    assert_eq!(ok.capability, CredentialStoreCapability::Supported);
    assert!(!ok.requires_reconnect);
    let missing = credential_store_probe_outcome(Err(BackendError::UnsupportedCommand {
        command: "get_credential_stores".to_string(),
        version: "22.7".to_string(),
        required: "22.8".to_string(),
    }))
    .unwrap();
    assert_eq!(missing.capability, CredentialStoreCapability::Unsupported);
    assert!(!missing.requires_reconnect);
    let disabled = credential_store_probe_outcome(Err(BackendError::Server {
        status: 503,
        message: "Service unavailable: Command Disabled".to_string(),
    }))
    .unwrap();
    assert_eq!(disabled.capability, CredentialStoreCapability::Unsupported);
    assert!(disabled.requires_reconnect);
    let failed = credential_store_probe_outcome(Err(BackendError::Timeout { seconds: 5 }));
    assert!(failed.is_err());
    assert_eq!(capability_after_probe(&failed), (CredentialStoreCapability::Unknown, true));
}

#[test]
fn static_adapter_reports_readiness_and_refuses_work() {
    let ready = StaticGvmdAdapter::ready("22.7".to_string());
    assert_eq!(ready.readiness().status, "ready");
    assert_eq!(ready.gmp_version().unwrap(), "22.7");
    assert_eq!(ready.authenticate_session("t", "u", "p").unwrap(), "22.7");
    let down = StaticGvmdAdapter::not_ready("gvmd offline".to_string(), "22.7".to_string());
    let status = down.readiness();
    assert_eq!(status.status, "notReady");
    assert_eq!(status.reason.as_deref(), Some("gvmd offline"));
    assert_eq!(detail(down.gmp_version().unwrap_err()), "gvmd offline");
    assert!(down.authenticate_session("t", "u", "p").is_err());
    assert_eq!(
        detail(ready.unsupported(StaticResource::PortLists)),
        "static adapter does not support port lists"
    );
    match ready.list_credential_stores() {
        Err(GatewayError::BackendUnavailable(d)) => {
            assert_eq!(d, "static adapter does not support credentials")
        }
        _ => panic!("the stand-in refuses operational requests"),
    }
    assert!(down.list_credential_stores().is_err());
}

#[test]
fn specialized_targets_are_refused_by_default() {
    match specialized_targets_not_implemented::<u8>() {
        Err(GatewayError::NotImplemented(d)) => {
            assert_eq!(d, "specialized target resources are not implemented by this adapter")
        }
        other => panic!("unexpected {other:?}"),
    }
}
