//! The gateway's shared error type, its stable public identity, and the
//! mapping of gvmd failures onto it.

use vstd::prelude::*;

verus! {

/// Stable machine-readable error codes.
#[derive(Clone, Copy, Debug, PartialEq, Eq, Structural)]
pub enum ErrorCode {
    BackendUnavailable,
    NotFound,
    InvalidInput,
    Unauthorized,
    SessionExpired,
    SessionInvalidated,
    Forbidden,
    TooManyRequests,
    Internal,
    NotImplemented,
    GatewayTimeout,
    Conflict,
}

/// Errors shared by every gateway surface. Each variant carries a
/// human-readable detail.
#[derive(Clone, Debug)]
pub enum GatewayError {
    /// gvmd (or the session store) cannot be reached.
    BackendUnavailable(String),
    /// The requested resource does not exist.
    NotFound(String),
    /// The request is malformed.
    InvalidInput(String),
    /// Authentication failed.
    Unauthorized(String),
    /// The session expired.
    SessionExpired(String),
    /// The session no longer exists.
    SessionInvalidated(String),
    /// The caller may not perform the operation.
    Forbidden(String),
    /// The caller is rate limited or a queue is saturated.
    TooManyRequests(String),
    /// An internal failure.
    Internal(String),
    /// gvmd does not implement the requested operation.
    NotImplemented(String),
    /// gvmd did not answer in time.
    GatewayTimeout(String),
    /// The operation conflicts with the resource's current state.
    Conflict(String),
}

/// The text of each error code.
pub open spec fn code_text(code: ErrorCode) -> Seq<char> {
    match code {
        ErrorCode::BackendUnavailable => "backend_unavailable"@,
        ErrorCode::NotFound => "not_found"@,
        ErrorCode::InvalidInput => "invalid_input"@,
        ErrorCode::Unauthorized => "unauthorized"@,
        ErrorCode::SessionExpired => "session_expired"@,
        ErrorCode::SessionInvalidated => "session_invalidated"@,
        ErrorCode::Forbidden => "forbidden"@,
        ErrorCode::TooManyRequests => "too_many_requests"@,
        ErrorCode::Internal => "internal"@,
        ErrorCode::NotImplemented => "not_implemented"@,
        ErrorCode::GatewayTimeout => "gateway_timeout"@,
        ErrorCode::Conflict => "conflict"@,
    }
}

/// The problem-type slug of each error code.
pub open spec fn slug_text(code: ErrorCode) -> Seq<char> {
    match code {
        ErrorCode::BackendUnavailable => "backend-unavailable"@,
        ErrorCode::NotFound => "not-found"@,
        ErrorCode::InvalidInput => "invalid-input"@,
        ErrorCode::Unauthorized => "unauthorized"@,
        ErrorCode::SessionExpired => "session-expired"@,
        ErrorCode::SessionInvalidated => "session-invalidated"@,
        ErrorCode::Forbidden => "forbidden"@,
        ErrorCode::TooManyRequests => "too-many-requests"@,
        ErrorCode::Internal => "internal"@,
        ErrorCode::NotImplemented => "not-implemented"@,
        ErrorCode::GatewayTimeout => "gateway-timeout"@,
        ErrorCode::Conflict => "conflict"@,
    }
}

/// `s` with every underscore replaced by a hyphen.
pub open spec fn hyphenated(s: Seq<char>) -> Seq<char> {
    Seq::new(s.len(), |i: int| if s[i] == '_' { '-' } else { s[i] })
}

impl ErrorCode {
    /// The stable snake-case text of this code.
    pub fn as_str(&self) -> (text: &'static str)
        ensures
            text@ == code_text(*self),
            *self == ErrorCode::BackendUnavailable ==> text@ == "backend_unavailable"@,
            *self == ErrorCode::NotFound ==> text@ == "not_found"@,
            *self == ErrorCode::InvalidInput ==> text@ == "invalid_input"@,
            *self == ErrorCode::Unauthorized ==> text@ == "unauthorized"@,
            *self == ErrorCode::SessionExpired ==> text@ == "session_expired"@,
            *self == ErrorCode::SessionInvalidated ==> text@ == "session_invalidated"@,
            *self == ErrorCode::Forbidden ==> text@ == "forbidden"@,
            *self == ErrorCode::TooManyRequests ==> text@ == "too_many_requests"@,
            *self == ErrorCode::Internal ==> text@ == "internal"@,
            *self == ErrorCode::NotImplemented ==> text@ == "not_implemented"@,
            *self == ErrorCode::GatewayTimeout ==> text@ == "gateway_timeout"@,
            *self == ErrorCode::Conflict ==> text@ == "conflict"@,
    {
        match self {
            ErrorCode::BackendUnavailable => "backend_unavailable",
            ErrorCode::NotFound => "not_found",
            ErrorCode::InvalidInput => "invalid_input",
            ErrorCode::Unauthorized => "unauthorized",
            ErrorCode::SessionExpired => "session_expired",
            ErrorCode::SessionInvalidated => "session_invalidated",
            ErrorCode::Forbidden => "forbidden",
            ErrorCode::TooManyRequests => "too_many_requests",
            ErrorCode::Internal => "internal",
            ErrorCode::NotImplemented => "not_implemented",
            ErrorCode::GatewayTimeout => "gateway_timeout",
            ErrorCode::Conflict => "conflict",
        }
    }
}

impl View for GatewayError {
    type V = (ErrorCode, Seq<char>);

    /// An error is its code together with its detail text.
    open spec fn view(&self) -> (ErrorCode, Seq<char>) {
        match self {
            GatewayError::BackendUnavailable(d) => (ErrorCode::BackendUnavailable, d@),
            GatewayError::NotFound(d) => (ErrorCode::NotFound, d@),
            GatewayError::InvalidInput(d) => (ErrorCode::InvalidInput, d@),
            GatewayError::Unauthorized(d) => (ErrorCode::Unauthorized, d@),
            GatewayError::SessionExpired(d) => (ErrorCode::SessionExpired, d@),
            GatewayError::SessionInvalidated(d) => (ErrorCode::SessionInvalidated, d@),
            GatewayError::Forbidden(d) => (ErrorCode::Forbidden, d@),
            GatewayError::TooManyRequests(d) => (ErrorCode::TooManyRequests, d@),
            GatewayError::Internal(d) => (ErrorCode::Internal, d@),
            GatewayError::NotImplemented(d) => (ErrorCode::NotImplemented, d@),
            GatewayError::GatewayTimeout(d) => (ErrorCode::GatewayTimeout, d@),
            GatewayError::Conflict(d) => (ErrorCode::Conflict, d@),
        }
    }
}

impl GatewayError {
    /// The stable code of this error.
    pub fn code(&self) -> (code: ErrorCode)
        ensures
            code == self@.0,
    {
        match self {
            GatewayError::BackendUnavailable(_) => ErrorCode::BackendUnavailable,
            GatewayError::NotFound(_) => ErrorCode::NotFound,
            GatewayError::InvalidInput(_) => ErrorCode::InvalidInput,
            GatewayError::Unauthorized(_) => ErrorCode::Unauthorized,
            GatewayError::SessionExpired(_) => ErrorCode::SessionExpired,
            GatewayError::SessionInvalidated(_) => ErrorCode::SessionInvalidated,
            GatewayError::Forbidden(_) => ErrorCode::Forbidden,
            GatewayError::TooManyRequests(_) => ErrorCode::TooManyRequests,
            GatewayError::Internal(_) => ErrorCode::Internal,
            GatewayError::NotImplemented(_) => ErrorCode::NotImplemented,
            GatewayError::GatewayTimeout(_) => ErrorCode::GatewayTimeout,
            GatewayError::Conflict(_) => ErrorCode::Conflict,
        }
    }

    /// The problem-type slug of this error (its code with hyphens).
    pub fn problem_slug(&self) -> (slug: &'static str)
        ensures
            slug@ == slug_text(self@.0),
            self@.0 == ErrorCode::BackendUnavailable ==> slug@ == "backend-unavailable"@,
            self@.0 == ErrorCode::NotFound ==> slug@ == "not-found"@,
            self@.0 == ErrorCode::InvalidInput ==> slug@ == "invalid-input"@,
            self@.0 == ErrorCode::Unauthorized ==> slug@ == "unauthorized"@,
            self@.0 == ErrorCode::SessionExpired ==> slug@ == "session-expired"@,
            self@.0 == ErrorCode::SessionInvalidated ==> slug@ == "session-invalidated"@,
            self@.0 == ErrorCode::Forbidden ==> slug@ == "forbidden"@,
            self@.0 == ErrorCode::TooManyRequests ==> slug@ == "too-many-requests"@,
            self@.0 == ErrorCode::Internal ==> slug@ == "internal"@,
            self@.0 == ErrorCode::NotImplemented ==> slug@ == "not-implemented"@,
            self@.0 == ErrorCode::GatewayTimeout ==> slug@ == "gateway-timeout"@,
            self@.0 == ErrorCode::Conflict ==> slug@ == "conflict"@,
    {
        match self {
            GatewayError::BackendUnavailable(_) => "backend-unavailable",
            GatewayError::NotFound(_) => "not-found",
            GatewayError::InvalidInput(_) => "invalid-input",
            GatewayError::Unauthorized(_) => "unauthorized",
            GatewayError::SessionExpired(_) => "session-expired",
            GatewayError::SessionInvalidated(_) => "session-invalidated",
            GatewayError::Forbidden(_) => "forbidden",
            GatewayError::TooManyRequests(_) => "too-many-requests",
            GatewayError::Internal(_) => "internal",
            GatewayError::NotImplemented(_) => "not-implemented",
            GatewayError::GatewayTimeout(_) => "gateway-timeout",
            GatewayError::Conflict(_) => "conflict",
        }
    }

    /// The human-readable detail of this error.
    pub fn detail(&self) -> (detail: &str)
        ensures
            detail@ == self@.1,
    {
        match self {
            GatewayError::BackendUnavailable(d) => d.as_str(),
            GatewayError::NotFound(d) => d.as_str(),
            GatewayError::InvalidInput(d) => d.as_str(),
            GatewayError::Unauthorized(d) => d.as_str(),
            GatewayError::SessionExpired(d) => d.as_str(),
            GatewayError::SessionInvalidated(d) => d.as_str(),
            GatewayError::Forbidden(d) => d.as_str(),
            GatewayError::TooManyRequests(d) => d.as_str(),
            GatewayError::Internal(d) => d.as_str(),
            GatewayError::NotImplemented(d) => d.as_str(),
            GatewayError::GatewayTimeout(d) => d.as_str(),
            GatewayError::Conflict(d) => d.as_str(),
        }
    }
}

/// Whether `result` failed with exactly this code and detail.
pub open spec fn fails_with<T>(result: Result<T, GatewayError>, code: ErrorCode, detail: Seq<char>) -> bool {
    result matches Err(e) && e@ == (code, detail)
}

/// Every problem slug is its error code with underscores turned into
/// hyphens, so the two public identities of an error never drift apart.
pub proof fn slug_is_hyphenated_code(code: ErrorCode)
    ensures
        slug_text(code) == hyphenated(code_text(code)),
{
    match code {
        ErrorCode::BackendUnavailable => {
            reveal_strlit("backend_unavailable");
            reveal_strlit("backend-unavailable");
        },
        ErrorCode::NotFound => {
            reveal_strlit("not_found");
            reveal_strlit("not-found");
        },
        ErrorCode::InvalidInput => {
            reveal_strlit("invalid_input");
            reveal_strlit("invalid-input");
        },
        ErrorCode::Unauthorized => {
            reveal_strlit("unauthorized");
        },
        ErrorCode::SessionExpired => {
            reveal_strlit("session_expired");
            reveal_strlit("session-expired");
        },
        ErrorCode::SessionInvalidated => {
            reveal_strlit("session_invalidated");
            reveal_strlit("session-invalidated");
        },
        ErrorCode::Forbidden => {
            reveal_strlit("forbidden");
        },
        ErrorCode::TooManyRequests => {
            reveal_strlit("too_many_requests");
            reveal_strlit("too-many-requests");
        },
        ErrorCode::Internal => {
            reveal_strlit("internal");
        },
        ErrorCode::NotImplemented => {
            reveal_strlit("not_implemented");
            reveal_strlit("not-implemented");
        },
        ErrorCode::GatewayTimeout => {
            reveal_strlit("gateway_timeout");
            reveal_strlit("gateway-timeout");
        },
        ErrorCode::Conflict => {
            reveal_strlit("conflict");
        },
    }
    assert(slug_text(code) =~= hyphenated(code_text(code)));
}

} // verus!
