use gvm_gateway::domain::credentials::{
    CreateCredentialInput, CredentialStorePreferenceInput, ModifyCredentialInput,
    ModifyCredentialStoreInput,
};
use gvm_gateway::domain::reports::{GetReportOpts, ReportQuery, ResultQuery};
use gvm_gateway::domain::targets::{ModifyTargetInput, TargetQuery};
use gvm_gateway::domain::tasks::ModifyTaskInput;
use gvm_gateway::errors::GatewayError;
use gvm_gateway::redaction::{hide_optional_value, hide_value};

/// GatewayError variants remain distinguishable for callers that match on them.
#[test]
fn gateway_error_variants_distinguishable() {
    let backend = GatewayError::BackendUnavailable("down".to_string());
    let not_found = GatewayError::NotFound("missing".to_string());
    let invalid = GatewayError::InvalidInput("bad".to_string());
    let unauth = GatewayError::Unauthorized("denied".to_string());
    let expired = GatewayError::SessionExpired("expired".to_string());
    let invalidated = GatewayError::SessionInvalidated("missing".to_string());
    let forbidden = GatewayError::Forbidden("forbidden".to_string());
    let limited = GatewayError::TooManyRequests("slow down".to_string());
    let internal = GatewayError::Internal("boom".to_string());

    assert!(matches!(backend, GatewayError::BackendUnavailable(_)));
    assert!(matches!(not_found, GatewayError::NotFound(_)));
    assert!(matches!(invalid, GatewayError::InvalidInput(_)));
    assert!(matches!(unauth, GatewayError::Unauthorized(_)));
    assert!(matches!(expired, GatewayError::SessionExpired(_)));
    assert!(matches!(invalidated, GatewayError::SessionInvalidated(_)));
    assert!(matches!(forbidden, GatewayError::Forbidden(_)));
    assert!(matches!(limited, GatewayError::TooManyRequests(_)));
    assert!(matches!(internal, GatewayError::Internal(_)));
}

/// Shared errors expose stable public code and slug identity.
#[test]
fn gateway_error_identity_is_stable() {
    let error = GatewayError::SessionExpired("expired".to_string());

    assert_eq!(error.code().as_str(), "session_expired");
    assert_eq!(error.problem_slug(), "session-expired");
    assert_eq!(error.detail(), "expired");
}

#[test]
fn every_problem_slug_is_the_hyphenated_code() {
    let errors = vec![
        GatewayError::BackendUnavailable(String::new()),
        GatewayError::NotFound(String::new()),
        GatewayError::InvalidInput(String::new()),
        GatewayError::Unauthorized(String::new()),
        GatewayError::SessionExpired(String::new()),
        GatewayError::SessionInvalidated(String::new()),
        GatewayError::Forbidden(String::new()),
        GatewayError::TooManyRequests(String::new()),
        GatewayError::Internal(String::new()),
        GatewayError::NotImplemented(String::new()),
        GatewayError::GatewayTimeout(String::new()),
        GatewayError::Conflict(String::new()),
    ];
    for error in errors {
        assert_eq!(error.problem_slug(), error.code().as_str().replace('_', "-"));
    }
    assert_eq!(GatewayError::TooManyRequests(String::new()).code().as_str(), "too_many_requests");
}

/// Log-safety helpers expose only the shared marker and do not retain the
/// value itself in their renderings.
#[test]
fn log_safety_helpers_hide_values() {
    let secret = "super-secret-value".to_string();
    let optional_secret = Some(secret.clone());
    let absent_secret: Option<String> = None;

    assert_eq!(hide_value(&secret).rendered(), "<redacted>");
    assert_eq!(hide_value(&secret).rendered(), "<redacted>");
    assert_eq!(hide_optional_value(&optional_secret).rendered(), "Some(<redacted>)");
    assert_eq!(hide_optional_value(&absent_secret).rendered(), "None");
}

/// Credential command debug output must not expose write-only secret material
/// if inputs are ever included in diagnostic logs or panic messages.
#[test]
fn credential_command_debug_redacts_secrets() {
    let create = CreateCredentialInput {
        name: "Credential".to_string(),
        comment: Some("visible comment".to_string()),
        credential_type: "snmpv3".to_string(),
        login: Some("visible-login".to_string()),
        password: Some("create-password-secret".to_string()),
        private_key: Some("create-private-key-secret".to_string()),
        certificate: Some("public-certificate".to_string()),
        community: Some("create-community-secret".to_string()),
        auth_algorithm: Some("sha1".to_string()),
        privacy_algorithm: Some("aes".to_string()),
        privacy_password: Some("create-privacy-secret".to_string()),
        credential_store_id: None,
        vault_id: Some("create-vault-secret".to_string()),
        host_identifier: Some("create-host-secret".to_string()),
    };
    let modify = ModifyCredentialInput {
        name: Some("Credential".to_string()),
        comment: Some("visible comment".to_string()),
        login: Some("visible-login".to_string()),
        password: Some("modify-password-secret".to_string()),
        private_key: Some("modify-private-key-secret".to_string()),
        certificate: Some("public-certificate".to_string()),
        community: Some("modify-community-secret".to_string()),
        auth_algorithm: Some("sha1".to_string()),
        privacy_algorithm: Some("aes".to_string()),
        privacy_password: Some("modify-privacy-secret".to_string()),
        credential_store_id: None,
        vault_id: Some("modify-vault-secret".to_string()),
        host_identifier: Some("modify-host-secret".to_string()),
    };

    let debug = format!("{}\n{}", create.debug_text(), modify.debug_text());

    assert!(debug.contains("visible-login"));
    assert!(debug.contains("<redacted>"));
    assert!(!debug.contains("create-password-secret"));
    assert!(!debug.contains("create-private-key-secret"));
    assert!(!debug.contains("create-community-secret"));
    assert!(!debug.contains("create-privacy-secret"));
    assert!(!debug.contains("create-vault-secret"));
    assert!(!debug.contains("create-host-secret"));
    assert!(!debug.contains("modify-password-secret"));
    assert!(!debug.contains("modify-private-key-secret"));
    assert!(!debug.contains("modify-community-secret"));
    assert!(!debug.contains("modify-privacy-secret"));
    assert!(!debug.contains("modify-vault-secret"));
    assert!(!debug.contains("modify-host-secret"));
}

#[test]
fn credential_debug_matches_std_debug_layout() {
    let create = CreateCredentialInput {
        name: "n".to_string(),
        credential_type: "up".to_string(),
        password: Some("pw".to_string()),
        ..Default::default()
    };
    assert_eq!(
        create.debug_text(),
        "CreateCredentialInput { name: \"n\", comment: None, credential_type: \"up\", login: None, password: Some(<redacted>), private_key: None, certificate: None, community: None, auth_algorithm: None, privacy_algorithm: None, privacy_password: None, credential_store_id: None, vault_id: None, host_identifier: None }"
    );
}

#[test]
fn credential_store_debug_hides_preference_values() {
    let input = ModifyCredentialStoreInput {
        active: Some(true),
        host: Some("vault.example".to_string()),
        path: None,
        port: Some(8200),
        comment: None,
        preferences: vec![
            CredentialStorePreferenceInput {
                name: "token".to_string(),
                value: "top-secret-token".to_string(),
            },
            CredentialStorePreferenceInput {
                name: "role".to_string(),
                value: "top-secret-role".to_string(),
            },
        ],
    };
    assert_eq!(
        input.debug_text(),
        "ModifyCredentialStoreInput { active: Some(true), host: Some(\"vault.example\"), path: None, port: Some(8200), comment: None, preferences: [CredentialStorePreferenceInput { name: \"token\", value: \"<redacted>\" }, CredentialStorePreferenceInput { name: \"role\", value: \"<redacted>\" }] }"
    );
    assert_eq!(
        ModifyCredentialStoreInput::default().debug_text(),
        "ModifyCredentialStoreInput { active: None, host: None, path: None, port: None, comment: None, preferences: [] }"
    );
}

/// TargetQuery defaults preserve the existing zero-value pagination behavior.
#[test]
fn target_query_default() {
    let query = TargetQuery::default();
    assert_eq!(query.page, 0);
    assert_eq!(query.per_page, 0);
    assert!(query.filter_string.is_none());
    assert!(query.filter_id.is_none());
}

/// ModifyTargetInput defaults remain empty so partial updates are opt-in.
#[test]
fn modify_target_input_default() {
    let input = ModifyTargetInput::default();
    assert!(input.name.is_none());
    assert!(input.comment.is_none());
    assert!(input.hosts.is_none());
    assert!(input.reverse_lookup_only.is_none());
    assert!(input.reverse_lookup_unify.is_none());
    assert!(input.ssh_credential_id.is_none());
    assert!(input.smb_credential_id.is_none());
    assert!(input.esxi_credential_id.is_none());
    assert!(input.snmp_credential_id.is_none());
}

/// ModifyTaskInput defaults keep preferences empty so omitted updates do not
/// accidentally replace scanner-level settings.
#[test]
fn modify_task_input_default_keeps_preferences_empty() {
    let input = ModifyTaskInput::default();

    assert!(input.preferences.is_empty());
}

/// ReportQuery defaults preserve the existing zero-value pagination behavior.
#[test]
fn report_query_default() {
    let query = ReportQuery::default();
    assert_eq!(query.page, 0);
    assert_eq!(query.per_page, 0);
    assert!(query.filter_string.is_none());
}

/// Single-report fetch defaults expose the documented embedded-result window.
#[test]
fn get_report_opts_default_embeds_first_result_page() {
    let opts = GetReportOpts::default();
    assert_eq!(opts.page, 1);
    assert_eq!(opts.per_page, 25);
}

/// ResultQuery defaults preserve the existing zero-value pagination behavior.
#[test]
fn result_query_default() {
    let query = ResultQuery::default();
    assert_eq!(query.page, 0);
    assert_eq!(query.per_page, 0);
    assert!(query.filter_string.is_none());
}
