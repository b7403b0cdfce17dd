use gvm_gateway::backend::{map_gvm_error, map_parse_error, BackendError, ParseFailure};
use gvm_gateway::errors::GatewayError;
use gvm_gateway::ids::{parse_alive_test, parse_entity_id, AliveTest};

#[test]
fn parse_entity_id_valid() {
    let result = parse_entity_id("550e8400-e29b-41d4-a716-446655440000");
    assert!(result.is_ok());
}

#[test]
fn parse_entity_id_invalid_empty() {
    let result = parse_entity_id("");
    assert!(matches!(result, Err(GatewayError::InvalidInput(_))));
}

#[test]
fn parse_entity_id_invalid_special_chars() {
    let result = parse_entity_id("invalid@id");
    assert!(matches!(result, Err(GatewayError::InvalidInput(_))));
}

#[test]
fn parse_entity_id_keeps_the_text() {
    let id = parse_entity_id("abc_DEF-123").unwrap();
    assert_eq!(id.as_str(), "abc_DEF-123");
    match parse_entity_id("a b") {
        Err(GatewayError::InvalidInput(detail)) => {
            assert_eq!(detail, "invalid resource identifier: a b")
        }
        _ => panic!("space must be rejected"),
    }
}

#[test]
fn parse_alive_test_valid() {
    let result = parse_alive_test("ICMP Ping");
    assert!(result.is_ok());
}

#[test]
fn parse_alive_test_invalid() {
    let result = parse_alive_test("InvalidTest");
    assert!(matches!(result, Err(GatewayError::InvalidInput(_))));
}

#[test]
fn parse_alive_test_knows_every_gmp_name() {
    assert_eq!(parse_alive_test("Consider Alive").unwrap(), AliveTest::ConsiderAlive);
    assert_eq!(
        parse_alive_test("ICMP, TCP-ACK Service & ARP Ping").unwrap(),
        AliveTest::IcmpTcpAckServiceAndArpPing
    );
    assert!(parse_alive_test("icmp ping").is_err());
}

#[test]
fn map_gvm_error_400_to_invalid_input() {
    let error = BackendError::Server {
        status: 400,
        message: "bad request".to_string(),
    };
    let mapped = map_gvm_error(&error);
    assert!(matches!(mapped, GatewayError::InvalidInput(_)));
}

#[test]
fn map_gvm_error_400_authentication_failed_to_unauthorized() {
    let error = BackendError::Server {
        status: 400,
        message: "Authentication failed".to_string(),
    };
    let mapped = map_gvm_error(&error);
    assert!(matches!(mapped, GatewayError::Unauthorized(_)));
}

#[test]
fn map_gvm_error_unsupported_command_to_not_implemented() {
    let error = BackendError::UnsupportedCommand {
        command: "get_report_vulns".to_string(),
        version: "22.7".to_string(),
        required: "22.8".to_string(),
    };

    let mapped = map_gvm_error(&error);

    assert!(
        matches!(mapped, GatewayError::NotImplemented(detail) if detail.contains("get_report_vulns"))
    );
}

#[test]
fn map_gvm_error_401_to_unauthorized() {
    let error = BackendError::Server {
        status: 401,
        message: "unauthorized".to_string(),
    };
    let mapped = map_gvm_error(&error);
    assert!(matches!(mapped, GatewayError::Unauthorized(_)));
}

#[test]
fn map_gvm_error_403_to_forbidden() {
    let error = BackendError::Server {
        status: 403,
        message: "forbidden".to_string(),
    };
    let mapped = map_gvm_error(&error);
    assert!(matches!(mapped, GatewayError::Forbidden(_)));
}

#[test]
fn map_gvm_error_404_to_not_found() {
    let error = BackendError::Server {
        status: 404,
        message: "not found".to_string(),
    };
    let mapped = map_gvm_error(&error);
    assert!(matches!(mapped, GatewayError::NotFound(_)));
}

#[test]
fn map_gvm_error_timeout_to_gateway_timeout() {
    let error = BackendError::Timeout { seconds: 5 };
    let mapped = map_gvm_error(&error);
    assert!(matches!(mapped, GatewayError::GatewayTimeout(_)));
}

#[test]
fn map_gvm_error_parse_server_error_uses_parse_mapping() {
    let error = BackendError::Parse(ParseFailure::ServerError {
        status: 400,
        message: "bad request".to_string(),
    });
    let mapped = map_gvm_error(&error);
    assert!(matches!(mapped, GatewayError::InvalidInput(detail) if detail == "bad request"));
}

#[test]
fn map_parse_error_404_to_not_found() {
    let error = ParseFailure::ServerError {
        status: 404,
        message: "not found".to_string(),
    };
    let mapped = map_parse_error(&error);
    assert!(matches!(mapped, GatewayError::NotFound(_)));
}

#[test]
fn map_parse_error_400_to_invalid_input() {
    let error = ParseFailure::ServerError {
        status: 400,
        message: "bad request".to_string(),
    };
    let mapped = map_parse_error(&error);
    assert!(matches!(mapped, GatewayError::InvalidInput(_)));
}

#[test]
fn map_parse_error_400_authentication_failed_to_unauthorized() {
    let error = ParseFailure::ServerError {
        status: 400,
        message: "Authentication failed".to_string(),
    };
    let mapped = map_parse_error(&error);
    assert!(matches!(mapped, GatewayError::Unauthorized(_)));
}

#[test]
fn map_parse_error_403_to_forbidden() {
    let error = ParseFailure::ServerError {
        status: 403,
        message: "forbidden".to_string(),
    };
    let mapped = map_parse_error(&error);
    assert!(matches!(mapped, GatewayError::Forbidden(_)));
}

#[test]
fn map_gvm_error_other_statuses_mean_backend_unavailable() {
    let mapped = map_gvm_error(&BackendError::Server {
        status: 500,
        message: "internal".to_string(),
    });
    assert!(matches!(mapped, GatewayError::BackendUnavailable(detail) if detail == "internal"));
    let mapped = map_gvm_error(&BackendError::Other("socket closed".to_string()));
    assert!(matches!(mapped, GatewayError::BackendUnavailable(detail) if detail == "socket closed"));
}
