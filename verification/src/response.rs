//! The agent response envelope, the application's error kinds, the mapping
//! from an application error to the agent error object, and the HTTP status
//! that answers each envelope.

use vstd::prelude::*;
use vstd::string::*;
use crate::text::{append_decimal_i64, append_hex_lower, decimal_int, hex_lower, owned, push_str, str_equal};
use crate::clock::{new_uuid_v4_bytes, now_utc, slice_range};

verus! {

broadcast use vstd::string::group_string_axioms;

/// `serde_json::Value`, carried opaquely in an error's details.
#[verifier::external_type_specification]
#[verifier::external_body]
pub struct ExJsonValue(serde_json::Value);

/// The error kinds of the application. The variants that wrap a failure of
/// an outside component (database, I/O, parsing, ...) carry that failure's
/// text, which is never shown to an agent.
#[derive(Debug)]
pub enum AppError {
    Authentication(String),
    Authorization(String),
    NotFound(String),
    BadRequest(String),
    Conflict(String),
    Validation(String),
    RateLimitExceeded,
    ServiceUnavailable(String),
    ExternalService(String),
    Internal(String),
    Database(String),
    FileUpload(String),
    ImageProcessing(String),
    Email(String),
    Serialization(String),
    Request(String),
    Io(String),
    Utf8(String),
    Uuid(String),
    Jwt(String),
    ValidatorError(String),
    Parse(String),
}

impl AppError {
    /// A `NotFound` error for a resource: "<resource> not found".
    pub fn not_found(resource: &str) -> (r: AppError)
        ensures
            r matches AppError::NotFound(m) && m@ == resource@ + " not found"@,
    {
        let mut m = owned(resource);
        push_str(&mut m, " not found");
        AppError::NotFound(m)
    }
}

/// The error object of an agent response.
#[derive(Debug)]
pub struct AgentError {
    /// Error code (`unauthorized`, `forbidden`, `not_found`, ...).
    pub code: String,
    /// Human readable message.
    pub message: String,
    /// Extra details, when any.
    pub details: Option<serde_json::Value>,
}

/// A request trace id.
#[derive(Debug, Clone)]
pub struct RequestId(pub String);

/// The agent response envelope.
#[derive(Debug)]
pub struct AgentResponse<T> {
    /// Whether the call succeeded.
    pub ok: bool,
    /// Response data.
    pub data: Option<T>,
    /// Error information.
    pub error: Option<AgentError>,
    /// Request trace id.
    pub request_id: String,
}

/// The code an agent sees for an application error.
pub open spec fn app_error_code(e: AppError) -> Seq<char> {
    match e {
        AppError::Authentication(_) => "unauthorized"@,
        AppError::Authorization(_) => "forbidden"@,
        AppError::NotFound(_) => "not_found"@,
        AppError::BadRequest(_) => "bad_request"@,
        AppError::Conflict(_) => "conflict"@,
        AppError::Validation(_) => "bad_request"@,
        AppError::RateLimitExceeded => "too_many_requests"@,
        AppError::ServiceUnavailable(_) => "service_unavailable"@,
        AppError::ExternalService(_) => "bad_gateway"@,
        _ => "internal_error"@,
    }
}

/// The message an agent sees for an application error: the error's own
/// message for the client-facing kinds, a fixed text otherwise.
pub open spec fn app_error_message(e: AppError) -> Seq<char> {
    match e {
        AppError::Authentication(m) => m@,
        AppError::Authorization(m) => m@,
        AppError::NotFound(m) => m@,
        AppError::BadRequest(m) => m@,
        AppError::Conflict(m) => m@,
        AppError::Validation(m) => m@,
        AppError::RateLimitExceeded => "Rate limit exceeded"@,
        AppError::ServiceUnavailable(m) => m@,
        AppError::ExternalService(m) => m@,
        _ => "Internal server error"@,
    }
}

/// The HTTP status that the agent API documents for each kind of error.
pub open spec fn app_error_http_status(e: AppError) -> u16 {
    match e {
        AppError::Authentication(_) => 401,
        AppError::Authorization(_) => 403,
        AppError::NotFound(_) => 404,
        AppError::BadRequest(_) => 400,
        AppError::Validation(_) => 400,
        AppError::Conflict(_) => 409,
        AppError::RateLimitExceeded => 429,
        AppError::ExternalService(_) => 502,
        AppError::ServiceUnavailable(_) => 503,
        _ => 500,
    }
}

/// The HTTP status of a failed envelope whose error has code `code`.
pub open spec fn status_for_code(code: Seq<char>) -> u16 {
    if code == "unauthorized"@ {
        401
    } else if code == "forbidden"@ {
        403
    } else if code == "not_found"@ {
        404
    } else if code == "bad_request"@ {
        400
    } else if code == "conflict"@ {
        409
    } else if code == "too_many_requests"@ {
        429
    } else if code == "bad_gateway"@ {
        502
    } else if code == "service_unavailable"@ {
        503
    } else {
        500
    }
}

/// The HTTP status of an envelope.
pub open spec fn envelope_status(ok: bool, error: Option<AgentError>) -> u16 {
    if ok {
        200
    } else {
        match error {
            Some(e) => status_for_code(e.code@),
            None => 500,
        }
    }
}

/// The text of a generated request id: `agv1-<milliseconds>-<4 hex digits>`.
pub open spec fn request_id_text(millis: int, tag: Seq<u8>) -> Seq<char> {
    "agv1-"@ + decimal_int(millis) + "-"@ + hex_lower(tag)
}

/// `s` is a generated request id.
pub open spec fn is_generated_request_id(s: Seq<char>) -> bool {
    exists|millis: i64, tag: Seq<u8>|
        tag.len() == 2 && s == #[trigger] request_id_text(millis as int, tag)
}

/// Renders a request id from a time in milliseconds and two random bytes.
pub fn format_request_id(millis: i64, tag: &[u8]) -> (r: String)
    requires
        tag@.len() == 2,
    ensures
        r@ == request_id_text(millis as int, tag@),
{
    let mut out = String::new();
    push_str(&mut out, "agv1-");
    append_decimal_i64(&mut out, millis);
    push_str(&mut out, "-");
    append_hex_lower(&mut out, tag);
    assert(out@ =~= request_id_text(millis as int, tag@));
    out
}

/// A fresh request id built from the current time and two random bytes.
pub fn generate_request_id() -> (r: String)
    ensures
        is_generated_request_id(r@),
{
    let now = now_utc();
    let bytes = new_uuid_v4_bytes();
    let tag = slice_range(bytes.as_slice(), 0, 2);
    let millis = now.millis();
    let r = format_request_id(millis, tag.as_slice());
    assert(tag@.len() == 2 && r@ == request_id_text(millis as int, tag@));
    r
}

impl AgentError {
    /// An error object with a code and a message and no details.
    pub fn new(code: &str, message: &str) -> (r: AgentError)
        ensures
            r.code@ == code@,
            r.message@ == message@,
            r.details is None,
    {
        AgentError { code: owned(code), message: owned(message), details: None }
    }

    /// The agent error object for an application error.
    pub fn from_app_error(err: AppError) -> (r: AgentError)
        ensures
            r.code@ == app_error_code(err),
            r.message@ == app_error_message(err),
            r.details is None,
    {
        match err {
            AppError::Authentication(msg) => AgentError {
                code: owned("unauthorized"),
                message: msg,
                details: None,
            },
            AppError::Authorization(msg) => AgentError {
                code: owned("forbidden"),
                message: msg,
                details: None,
            },
            AppError::NotFound(msg) => AgentError {
                code: owned("not_found"),
                message: msg,
                details: None,
            },
            AppError::BadRequest(msg) => AgentError {
                code: owned("bad_request"),
                message: msg,
                details: None,
            },
            AppError::Conflict(msg) => AgentError {
                code: owned("conflict"),
                message: msg,
                details: None,
            },
            AppError::Validation(msg) => AgentError {
                code: owned("bad_request"),
                message: msg,
                details: None,
            },
            AppError::RateLimitExceeded => AgentError::new(
                "too_many_requests",
                "Rate limit exceeded",
            ),
            AppError::ServiceUnavailable(msg) => AgentError {
                code: owned("service_unavailable"),
                message: msg,
                details: None,
            },
            AppError::ExternalService(msg) => AgentError {
                code: owned("bad_gateway"),
                message: msg,
                details: None,
            },
            AppError::Internal(_)
            | AppError::Database(_)
            | AppError::FileUpload(_)
            | AppError::ImageProcessing(_)
            | AppError::Email(_)
            | AppError::Serialization(_)
            | AppError::Request(_)
            | AppError::Io(_)
            | AppError::Utf8(_)
            | AppError::Uuid(_)
            | AppError::Jwt(_)
            | AppError::ValidatorError(_)
            | AppError::Parse(_) => AgentError::new("internal_error", "Internal server error"),
        }
    }
}

/// The HTTP status for an error code.
pub fn status_for_error_code(code: &str) -> (r: u16)
    ensures
        r == status_for_code(code@),
{
    if str_equal(code, "unauthorized") {
        401
    } else if str_equal(code, "forbidden") {
        403
    } else if str_equal(code, "not_found") {
        404
    } else if str_equal(code, "bad_request") {
        400
    } else if str_equal(code, "conflict") {
        409
    } else if str_equal(code, "too_many_requests") {
        429
    } else if str_equal(code, "bad_gateway") {
        502
    } else if str_equal(code, "service_unavailable") {
        503
    } else {
        500
    }
}

impl AgentResponse<()> {
    /// A fresh request id (see `generate_request_id`).
    pub fn generate_request_id() -> (r: String)
        ensures
            is_generated_request_id(r@),
    {
        generate_request_id()
    }
}

impl<T> AgentResponse<T> {
    /// A successful envelope carrying `data`, traced by `request_id` or by a
    /// fresh id when none is given.
    pub fn success_with_request_id(data: T, request_id: Option<RequestId>) -> (r: Self)
        ensures
            r.ok,
            r.data == Some(data),
            r.error is None,
            request_id matches Some(id) ==> r.request_id@ == id.0@,
            request_id is None ==> is_generated_request_id(r.request_id@),
    {
        let rid = match request_id {
            Some(id) => id.0,
            None => generate_request_id(),
        };
        AgentResponse { ok: true, data: Some(data), error: None, request_id: rid }
    }

    /// A successful envelope with a fresh request id.
    pub fn success(data: T) -> (r: Self)
        ensures
            r.ok,
            r.data == Some(data),
            r.error is None,
            is_generated_request_id(r.request_id@),
    {
        Self::success_with_request_id(data, None)
    }

    /// A failed envelope carrying `err`, traced by `request_id` or by a fresh
    /// id when none is given.
    pub fn from_error(err: AgentError, request_id: Option<RequestId>) -> (r: Self)
        ensures
            !r.ok,
            r.data is None,
            r.error == Some(err),
            request_id matches Some(id) ==> r.request_id@ == id.0@,
            request_id is None ==> is_generated_request_id(r.request_id@),
    {
        let rid = match request_id {
            Some(id) => id.0,
            None => generate_request_id(),
        };
        AgentResponse { ok: false, data: None, error: Some(err), request_id: rid }
    }

    /// A failed envelope with an error code and message and no details.
    pub fn error_with_request_id(code: &str, message: &str, request_id: Option<RequestId>) -> (r:
        Self)
        ensures
            !r.ok,
            r.data is None,
            r.error matches Some(e) && e.code@ == code@ && e.message@ == message@
                && e.details is None,
            request_id matches Some(id) ==> r.request_id@ == id.0@,
            request_id is None ==> is_generated_request_id(r.request_id@),
    {
        Self::from_error(AgentError::new(code, message), request_id)
    }

    /// A failed envelope with a fresh request id.
    pub fn error(code: &str, message: &str) -> (r: Self)
        ensures
            !r.ok,
            r.data is None,
            r.error matches Some(e) && e.code@ == code@ && e.message@ == message@
                && e.details is None,
            is_generated_request_id(r.request_id@),
    {
        Self::error_with_request_id(code, message, None)
    }

    /// A failed envelope whose error carries `details`.
    pub fn error_with_details(code: &str, message: &str, details: serde_json::Value) -> (r: Self)
        ensures
            !r.ok,
            r.data is None,
            r.error matches Some(e) && e.code@ == code@ && e.message@ == message@
                && e.details == Some(details),
            is_generated_request_id(r.request_id@),
    {
        let err = AgentError { code: owned(code), message: owned(message), details: Some(details) };
        Self::from_error(err, None)
    }

    /// The HTTP status that answers this envelope.
    pub fn status_code(&self) -> (r: u16)
        ensures
            r == envelope_status(self.ok, self.error),
    {
        if self.ok {
            200
        } else {
            match &self.error {
                Some(e) => status_for_error_code(e.code.as_str()),
                None => 500,
            }
        }
    }
}

/// An application error reaches an agent with the HTTP status that the agent
/// API documents for its kind (401 unauthorized, 403 forbidden, 404 not
/// found, 400 bad request or validation, 409 conflict, 429 rate limit, 502
/// upstream failure, 503 unavailable, 500 otherwise).
pub proof fn law_app_error_status(e: AppError)
    ensures
        status_for_code(app_error_code(e)) == app_error_http_status(e),
{
    reveal_strlit("unauthorized");
    reveal_strlit("forbidden");
    reveal_strlit("not_found");
    reveal_strlit("bad_request");
    reveal_strlit("conflict");
    reveal_strlit("too_many_requests");
    reveal_strlit("bad_gateway");
    reveal_strlit("service_unavailable");
    reveal_strlit("internal_error");
    let codes = seq![
        "unauthorized"@,
        "forbidden"@,
        "not_found"@,
        "bad_request"@,
        "conflict"@,
        "too_many_requests"@,
        "bad_gateway"@,
        "service_unavailable"@,
        "internal_error"@,
    ];
    assert forall|i: int, j: int| 0 <= i < j < 9 implies codes[i] != codes[j] by {
        if codes[i].len() == codes[j].len() {
            if i == 1 {
                assert(codes[i][0] != codes[j][0]);
            } else {
                assert(codes[i][4] != codes[j][4]);
            }
        }
    }
    assert(codes[0] != codes[8] && codes[1] != codes[8] && codes[2] != codes[8] && codes[3]
        != codes[8] && codes[4] != codes[8] && codes[5] != codes[8] && codes[6] != codes[8]
        && codes[7] != codes[8]);
    assert(codes[0] != codes[1] && codes[0] != codes[2] && codes[1] != codes[2] && codes[0]
        != codes[3] && codes[1] != codes[3] && codes[2] != codes[3]);
    assert(codes[3] != codes[4] && codes[3] != codes[5] && codes[3] != codes[6] && codes[4]
        != codes[5] && codes[5] != codes[6] && codes[6] != codes[7] && codes[4] != codes[6]);
    assert(codes[0] != codes[4] && codes[0] != codes[5] && codes[0] != codes[6] && codes[0]
        != codes[7] && codes[1] != codes[4] && codes[1] != codes[5] && codes[1] != codes[6]
        && codes[1] != codes[7]);
    assert(codes[2] != codes[4] && codes[2] != codes[5] && codes[2] != codes[6] && codes[2]
        != codes[7] && codes[3] != codes[7] && codes[4] != codes[7] && codes[5] != codes[7]);
}

/// A successful envelope is answered with 200 whatever it carries.
pub proof fn law_success_status<T>(r: AgentResponse<T>)
    requires
        r.ok,
    ensures
        envelope_status(r.ok, r.error) == 200,
{
}

} // verus!
