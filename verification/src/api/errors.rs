//! Structured API errors with a consistent JSON shape.
use crate::text::{chars_of, contains_seq, find_in, push_str_chars, string_from_chars};
use vstd::prelude::*;

verus! {

/// Structured API error.
pub enum ApiError {
    /// 401 Unauthorized: missing or invalid authentication.
    Unauthorized { message: String },
    /// 403 Forbidden: valid authentication but insufficient permissions.
    Forbidden { message: String },
    /// 404 Not Found: the resource does not exist.
    NotFound { resource: String, message: String },
    /// 400 Bad Request: invalid input.
    BadRequest { message: String },
    /// 500 Internal Server Error: server-side errors.
    InternalError { message: String },
}

/// Mathematical view of an [`ApiError`].
pub enum ApiErrorView {
    Unauthorized { message: Seq<char> },
    Forbidden { message: Seq<char> },
    NotFound { resource: Seq<char>, message: Seq<char> },
    BadRequest { message: Seq<char> },
    InternalError { message: Seq<char> },
}

impl View for ApiError {
    type V = ApiErrorView;

    open spec fn view(&self) -> ApiErrorView {
        match self {
            ApiError::Unauthorized { message } => ApiErrorView::Unauthorized { message: message@ },
            ApiError::Forbidden { message } => ApiErrorView::Forbidden { message: message@ },
            ApiError::NotFound { resource, message } => ApiErrorView::NotFound {
                resource: resource@,
                message: message@,
            },
            ApiError::BadRequest { message } => ApiErrorView::BadRequest { message: message@ },
            ApiError::InternalError { message } => ApiErrorView::InternalError {
                message: message@,
            },
        }
    }
}

/// The JSON body of an error response: `{"error": {code, message, details?}}`.
pub struct ErrorDetail {
    pub code: String,
    pub message: String,
    pub details: Option<String>,
}

/// HTTP status of an error.
pub open spec fn status_of(e: ApiErrorView) -> u16 {
    match e {
        ApiErrorView::Unauthorized { .. } => 401,
        ApiErrorView::Forbidden { .. } => 403,
        ApiErrorView::NotFound { .. } => 404,
        ApiErrorView::BadRequest { .. } => 400,
        ApiErrorView::InternalError { .. } => 500,
    }
}

/// Machine-readable code of an error.
pub open spec fn code_of(e: ApiErrorView) -> Seq<char> {
    match e {
        ApiErrorView::Unauthorized { .. } => "UNAUTHORIZED"@,
        ApiErrorView::Forbidden { .. } => "FORBIDDEN"@,
        ApiErrorView::NotFound { .. } => "NOT_FOUND"@,
        ApiErrorView::BadRequest { .. } => "BAD_REQUEST"@,
        ApiErrorView::InternalError { .. } => "INTERNAL_ERROR"@,
    }
}

/// Client-facing message of an error.
pub open spec fn message_of(e: ApiErrorView) -> Seq<char> {
    match e {
        ApiErrorView::Unauthorized { .. } => "Authentication required"@,
        ApiErrorView::Forbidden { .. } => "Access denied"@,
        ApiErrorView::NotFound { resource, .. } => resource + " not found"@,
        ApiErrorView::BadRequest { .. } => "Invalid request"@,
        ApiErrorView::InternalError { .. } => "An internal error occurred"@,
    }
}

/// Details shown to the client: the error's own message, except for internal
/// errors, whose details stay on the server.
pub open spec fn details_of(e: ApiErrorView) -> Option<Seq<char>> {
    match e {
        ApiErrorView::Unauthorized { message } => Some(message),
        ApiErrorView::Forbidden { message } => Some(message),
        ApiErrorView::NotFound { message, .. } => Some(message),
        ApiErrorView::BadRequest { message } => Some(message),
        ApiErrorView::InternalError { .. } => None,
    }
}

fn owned(s: &str) -> (r: String)
    ensures
        r@ == s@,
{
    s.to_owned()
}

impl ApiError {
    /// Creates an Unauthorized error.
    pub fn unauthorized(msg: &str) -> (r: Self)
        ensures
            r@ == (ApiErrorView::Unauthorized { message: msg@ }),
    {
        ApiError::Unauthorized { message: owned(msg) }
    }

    /// Creates a Forbidden error.
    pub fn forbidden(msg: &str) -> (r: Self)
        ensures
            r@ == (ApiErrorView::Forbidden { message: msg@ }),
    {
        ApiError::Forbidden { message: owned(msg) }
    }

    /// Creates a NotFound error for `resource`.
    pub fn not_found(resource: &str, msg: &str) -> (r: Self)
        ensures
            r@ == (ApiErrorView::NotFound { resource: resource@, message: msg@ }),
    {
        ApiError::NotFound { resource: owned(resource), message: owned(msg) }
    }

    /// Creates a BadRequest error.
    pub fn bad_request(msg: &str) -> (r: Self)
        ensures
            r@ == (ApiErrorView::BadRequest { message: msg@ }),
    {
        ApiError::BadRequest { message: owned(msg) }
    }

    /// Creates an InternalError.
    pub fn internal(msg: &str) -> (r: Self)
        ensures
            r@ == (ApiErrorView::InternalError { message: msg@ }),
    {
        ApiError::InternalError { message: owned(msg) }
    }

    /// HTTP status code of the response for this error.
    pub fn status_code(&self) -> (r: u16)
        ensures
            r == status_of(self@),
    {
        match self {
            ApiError::Unauthorized { .. } => 401,
            ApiError::Forbidden { .. } => 403,
            ApiError::NotFound { .. } => 404,
            ApiError::BadRequest { .. } => 400,
            ApiError::InternalError { .. } => 500,
        }
    }

    /// The JSON error body of the response for this error.
    pub fn error_detail(&self) -> (r: ErrorDetail)
        ensures
            r.code@ == code_of(self@),
            r.message@ == message_of(self@),
            match details_of(self@) {
                Some(d) => r.details is Some && r.details->0@ == d,
                None => r.details is None,
            },
    {
        match self {
            ApiError::Unauthorized { message } => ErrorDetail {
                code: owned("UNAUTHORIZED"),
                message: owned("Authentication required"),
                details: Some(message.clone()),
            },
            ApiError::Forbidden { message } => ErrorDetail {
                code: owned("FORBIDDEN"),
                message: owned("Access denied"),
                details: Some(message.clone()),
            },
            ApiError::NotFound { resource, message } => {
                let mut out: Vec<char> = Vec::new();
                push_str_chars(&mut out, resource.as_str());
                push_str_chars(&mut out, " not found");
                ErrorDetail {
                    code: owned("NOT_FOUND"),
                    message: string_from_chars(&out),
                    details: Some(message.clone()),
                }
            },
            ApiError::BadRequest { message } => ErrorDetail {
                code: owned("BAD_REQUEST"),
                message: owned("Invalid request"),
                details: Some(message.clone()),
            },
            ApiError::InternalError { .. } => ErrorDetail {
                code: owned("INTERNAL_ERROR"),
                message: owned("An internal error occurred"),
                details: None,
            },
        }
    }

    /// Classifies a formatted error chain (`{:#}` of an error) into an API
    /// error by the words it holds.
    pub fn from_error_chain(err_str: &str) -> (r: Self)
        ensures
            r@ == classify_error_chain(err_str@),
    {
        let v = chars_of(err_str);
        if contains(&v, "not found in database") || contains(&v, "not found") {
            ApiError::not_found("Resource", err_str)
        } else if contains(&v, "Permission denied") || contains(&v, "owned by another user") {
            ApiError::forbidden(err_str)
        } else if contains(&v, "Invalid") || contains(&v, "missing") {
            ApiError::bad_request(err_str)
        } else {
            ApiError::internal("An unexpected error occurred")
        }
    }
}

/// The API error an error chain is mapped to.
pub open spec fn classify_error_chain(s: Seq<char>) -> ApiErrorView {
    if contains_seq(s, "not found in database"@) || contains_seq(s, "not found"@) {
        ApiErrorView::NotFound { resource: "Resource"@, message: s }
    } else if contains_seq(s, "Permission denied"@) || contains_seq(s, "owned by another user"@) {
        ApiErrorView::Forbidden { message: s }
    } else if contains_seq(s, "Invalid"@) || contains_seq(s, "missing"@) {
        ApiErrorView::BadRequest { message: s }
    } else {
        ApiErrorView::InternalError { message: "An unexpected error occurred"@ }
    }
}

/// Whether `pat` occurs in `v`.
pub(crate) fn contains(v: &Vec<char>, pat: &str) -> (b: bool)
    ensures
        b == contains_seq(v@, pat@),
{
    let p = chars_of(pat);
    assert(v@.subrange(0, v@.len() as int) == v@);
    find_in(v, 0, v.len(), &p).is_some()
}

/// Internal errors never show their message to the client.
pub proof fn law_internal_error_hides_details(message: Seq<char>)
    ensures
        details_of(ApiErrorView::InternalError { message }) is None,
        status_of(ApiErrorView::InternalError { message }) == 500,
{
}

/// Every error other than an internal one shows its own message as details.
pub proof fn law_client_errors_show_details(e: ApiErrorView)
    requires
        !(e is InternalError),
    ensures
        details_of(e) is Some,
        400 <= status_of(e) < 500,
{
}

} // verus!
