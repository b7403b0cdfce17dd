//! What gvmd can answer with when a command fails, and how each failure is
//! presented to gateway clients.

use vstd::prelude::*;

use crate::errors::{ErrorCode, GatewayError};
use crate::text::{joined, lowercase_contains, owned, text_eq, contains_text, ascii_lowercase};

verus! {

/// A failure reported while reading a gvmd response.
#[derive(Clone, Debug, PartialEq, Eq)]
pub enum ParseFailure {
    /// gvmd answered with a non-success status.
    ServerError { status: u16, message: String },
    /// The response could not be understood; the text describes why.
    Malformed(String),
}

/// A failed gvmd command.
#[derive(Clone, Debug, PartialEq, Eq)]
pub enum BackendError {
    /// gvmd answered with a non-success status.
    Server { status: u16, message: String },
    /// The response could not be read.
    Parse(ParseFailure),
    /// The connected gvmd does not implement the command.
    UnsupportedCommand { command: String, version: String, required: String },
    /// gvmd did not answer within the given number of seconds.
    Timeout { seconds: u64 },
    /// Any other transport or protocol failure, with its description.
    Other(String),
}

/// How a gvmd status answer is presented: failed logins (which gvmd may send
/// as status 400) are authentication failures, other client statuses keep
/// their meaning, and everything else means the backend is unavailable.
pub open spec fn status_error(status: u16, message: Seq<char>) -> (ErrorCode, Seq<char>) {
    if status == 400 && message == "Authentication failed"@ {
        (ErrorCode::Unauthorized, message)
    } else if status == 400 {
        (ErrorCode::InvalidInput, message)
    } else if status == 401 {
        (ErrorCode::Unauthorized, message)
    } else if status == 403 {
        (ErrorCode::Forbidden, message)
    } else if status == 404 {
        (ErrorCode::NotFound, message)
    } else {
        (ErrorCode::BackendUnavailable, message)
    }
}

/// How a response-reading failure is presented.
pub open spec fn parse_failure_error(failure: ParseFailure) -> (ErrorCode, Seq<char>) {
    match failure {
        ParseFailure::ServerError { status, message } => status_error(status, message@),
        ParseFailure::Malformed(text) => (ErrorCode::BackendUnavailable, text@),
    }
}

/// Detail of the error for a command that the connected gvmd lacks.
pub open spec fn unsupported_command_detail(command: Seq<char>, version: Seq<char>, required: Seq<char>) -> Seq<char> {
    "gvmd does not implement `"@ + command + "` (it requires GMP "@ + required
        + ", the backend speaks GMP "@ + version + ")"@
}

/// How a failed gvmd command is presented.
pub open spec fn backend_failure_error(error: BackendError) -> (ErrorCode, Seq<char>) {
    match error {
        BackendError::Server { status, message } => status_error(status, message@),
        BackendError::Parse(failure) => parse_failure_error(failure),
        BackendError::UnsupportedCommand { command, version, required } => (
            ErrorCode::NotImplemented,
            unsupported_command_detail(command@, version@, required@),
        ),
        BackendError::Timeout { .. } => (ErrorCode::GatewayTimeout, "gvmd did not answer in time"@),
        BackendError::Other(text) => (ErrorCode::BackendUnavailable, text@),
    }
}

fn status_to_error(status: u16, message: &String) -> (e: GatewayError)
    ensures
        e@ == status_error(status, message@),
{
    let detail = message.clone();
    if status == 400 && text_eq(message.as_str(), "Authentication failed") {
        GatewayError::Unauthorized(detail)
    } else if status == 400 {
        GatewayError::InvalidInput(detail)
    } else if status == 401 {
        GatewayError::Unauthorized(detail)
    } else if status == 403 {
        GatewayError::Forbidden(detail)
    } else if status == 404 {
        GatewayError::NotFound(detail)
    } else {
        GatewayError::BackendUnavailable(detail)
    }
}

/// Maps a response-reading failure to a gateway error.
pub fn map_parse_error(failure: &ParseFailure) -> (e: GatewayError)
    ensures
        e@ == parse_failure_error(*failure),
{
    match failure {
        ParseFailure::ServerError { status, message } => status_to_error(*status, message),
        ParseFailure::Malformed(text) => GatewayError::BackendUnavailable(text.clone()),
    }
}

/// Maps a failed gvmd command to a gateway error. A status answer found
/// while reading a response is presented exactly like a direct one.
pub fn map_gvm_error(error: &BackendError) -> (e: GatewayError)
    ensures
        e@ == backend_failure_error(*error),
        *error matches BackendError::Parse(failure) ==> e@ == parse_failure_error(failure),
        *error matches BackendError::Server { status, message } ==> {
            &&& e@.1 == message@
            &&& status == 400 && message@ == "Authentication failed"@ ==> e@.0 == ErrorCode::Unauthorized
            &&& status == 400 && message@ != "Authentication failed"@ ==> e@.0 == ErrorCode::InvalidInput
            &&& status == 401 ==> e@.0 == ErrorCode::Unauthorized
            &&& status == 403 ==> e@.0 == ErrorCode::Forbidden
            &&& status == 404 ==> e@.0 == ErrorCode::NotFound
            &&& status != 400 && status != 401 && status != 403 && status != 404 ==> e@.0
                == ErrorCode::BackendUnavailable
        },
        *error matches BackendError::Timeout { .. } ==> e@.0 == ErrorCode::GatewayTimeout,
        *error matches BackendError::UnsupportedCommand { .. } ==> e@.0 == ErrorCode::NotImplemented,
        *error matches BackendError::Other(text) ==> e@ == (ErrorCode::BackendUnavailable, text@),
{
    match error {
        BackendError::Server { status, message } => status_to_error(*status, message),
        BackendError::Parse(failure) => map_parse_error(failure),
        BackendError::UnsupportedCommand { command, version, required } => {
            let mut d = owned("gvmd does not implement `");
            d.append(command.as_str());
            d.append("` (it requires GMP ");
            d.append(required.as_str());
            d.append(", the backend speaks GMP ");
            d.append(version.as_str());
            d.append(")");
            GatewayError::NotImplemented(d)
        },
        BackendError::Timeout { .. } => GatewayError::GatewayTimeout(owned("gvmd did not answer in time")),
        BackendError::Other(text) => GatewayError::BackendUnavailable(text.clone()),
    }
}

/// Maps the failure of deleting an operating-system asset: gvmd refuses to
/// delete an asset that is still in use with status 400, which is a
/// conflict rather than malformed input.
pub fn map_operating_system_delete_error(error: &BackendError) -> (e: GatewayError)
    ensures
        e@ == match *error {
            BackendError::Server { status, message } if status == 400 => (
                ErrorCode::Conflict,
                message@,
            ),
            BackendError::Parse(ParseFailure::ServerError { status, message }) if status == 400 => (
                ErrorCode::Conflict,
                message@,
            ),
            _ => backend_failure_error(*error),
        },
{
    match error {
        BackendError::Server { status, message } if *status == 400 => GatewayError::Conflict(
            message.clone(),
        ),
        BackendError::Parse(ParseFailure::ServerError { status, message }) if *status == 400 => {
            GatewayError::Conflict(message.clone())
        },
        _ => map_gvm_error(error),
    }
}

/// Whether `error` says that the connected gvmd does not implement `command`.
pub open spec fn is_unsupported_command(error: BackendError, command: Seq<char>) -> bool {
    error matches BackendError::UnsupportedCommand { command: c, .. } && c@ == command
}

/// Whether a failed command is gvmd reporting that it lacks `command`.
pub fn unsupported_command(error: &BackendError, command: &str) -> (r: bool)
    ensures
        r == is_unsupported_command(*error, command@),
{
    match error {
        BackendError::UnsupportedCommand { command: c, .. } => text_eq(c.as_str(), command),
        _ => false,
    }
}

/// Whether credential stores are unavailable on this backend: gvmd lacks
/// `get_credential_stores`, or answers 503 with a "command disabled"
/// message (in any ASCII case).
pub open spec fn credential_stores_unavailable(error: BackendError) -> bool {
    match error {
        BackendError::UnsupportedCommand { command, .. } => command@ == "get_credential_stores"@,
        BackendError::Server { status, message } => status == 503 && contains_text(
            ascii_lowercase(message@),
            "command disabled"@,
        ),
        BackendError::Parse(ParseFailure::ServerError { status, message }) => status == 503
            && contains_text(ascii_lowercase(message@), "command disabled"@),
        _ => false,
    }
}

/// Whether a 503 message says that gvmd disabled the command.
pub fn credential_store_command_disabled(message: &str) -> (r: bool)
    ensures
        r == contains_text(ascii_lowercase(message@), "command disabled"@),
{
    lowercase_contains(message, "command disabled")
}

/// Whether a failed command shows that credential stores are unavailable.
pub fn credential_store_capability_unavailable(error: &BackendError) -> (r: bool)
    ensures
        r == credential_stores_unavailable(*error),
{
    match error {
        BackendError::UnsupportedCommand { command, .. } => text_eq(
            command.as_str(),
            "get_credential_stores",
        ),
        BackendError::Server { status, message } => *status == 503
            && credential_store_command_disabled(message.as_str()),
        BackendError::Parse(ParseFailure::ServerError { status, message }) => *status == 503
            && credential_store_command_disabled(message.as_str()),
        _ => false,
    }
}

/// Detail of the error returned whenever credential stores are unavailable.
pub open spec fn unsupported_credential_store_detail() -> Seq<char> {
    "credential stores are not available because gvmd does not expose `get_credential_stores` on this backend instance; the proxy does not synthesize credential store entries"@
}

/// The error returned whenever credential stores are unavailable.
pub fn unsupported_credential_store_error() -> (e: GatewayError)
    ensures
        e@ == (ErrorCode::NotImplemented, unsupported_credential_store_detail()),
{
    GatewayError::NotImplemented(
        owned(
            "credential stores are not available because gvmd does not expose `get_credential_stores` on this backend instance; the proxy does not synthesize credential store entries",
        ),
    )
}

/// Maps a failed credential-store command: unavailability of the feature is
/// reported as such, anything else as usual.
pub fn map_credential_store_error(error: &BackendError) -> (e: GatewayError)
    ensures
        credential_stores_unavailable(*error) ==> e@ == (
            ErrorCode::NotImplemented,
            unsupported_credential_store_detail(),
        ),
        !credential_stores_unavailable(*error) ==> e@ == backend_failure_error(*error),
{
    if credential_store_capability_unavailable(error) {
        unsupported_credential_store_error()
    } else {
        map_gvm_error(error)
    }
}

/// Detail of the error for a typed report-detail command that the backend
/// lacks.
pub open spec fn unsupported_report_detail_detail(command: Seq<char>, resource: Seq<char>) -> Seq<char> {
    resource + " are not available because gvmd does not implement `"@ + command
        + "` on this backend version; the proxy does not emulate unsupported GMP commands"@
}

/// The error for a typed report-detail command that the backend lacks; the
/// gateway does not emulate missing commands.
pub fn unsupported_typed_report_detail_error(command: &str, resource: &str) -> (e: GatewayError)
    ensures
        e@ == (ErrorCode::NotImplemented, unsupported_report_detail_detail(command@, resource@)),
{
    let mut d = owned(resource);
    d.append(" are not available because gvmd does not implement `");
    d.append(command);
    d.append("` on this backend version; the proxy does not emulate unsupported GMP commands");
    GatewayError::NotImplemented(d)
}

/// Maps the failure of a typed report-detail command.
pub fn map_report_detail_error(error: &BackendError, command: &str, resource: &str) -> (e: GatewayError)
    ensures
        is_unsupported_command(*error, command@) ==> e@ == (
            ErrorCode::NotImplemented,
            unsupported_report_detail_detail(command@, resource@),
        ),
        !is_unsupported_command(*error, command@) ==> e@ == backend_failure_error(*error),
{
    if unsupported_command(error, command) {
        unsupported_typed_report_detail_error(command, resource)
    } else {
        map_gvm_error(error)
    }
}

} // verus!
