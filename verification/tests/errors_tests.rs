use sherpa_server::api::errors::ApiError;

fn chain_text(message: &str) -> String {
    format!("{:#}", anyhow::Error::msg(message.to_string()))
}

#[test]
fn test_unauthorized_status_code() {
    let err = ApiError::unauthorized("bad token");
    assert_eq!(err.status_code(), 401);
}

#[test]
fn test_forbidden_status_code() {
    let err = ApiError::forbidden("not allowed");
    assert_eq!(err.status_code(), 403);
}

#[test]
fn test_not_found_status_code() {
    let err = ApiError::not_found("Lab", "lab-123 not found");
    assert_eq!(err.status_code(), 404);
}

#[test]
fn test_bad_request_status_code() {
    let err = ApiError::bad_request("missing field");
    assert_eq!(err.status_code(), 400);
}

#[test]
fn test_internal_error_status_code() {
    let err = ApiError::internal("db crashed");
    assert_eq!(err.status_code(), 500);
}

#[test]
fn test_unauthorized_json_body() {
    let detail = ApiError::unauthorized("invalid token").error_detail();
    assert_eq!(detail.code, "UNAUTHORIZED");
    assert_eq!(detail.message, "Authentication required");
    assert_eq!(detail.details, Some("invalid token".to_string()));
}

#[test]
fn test_not_found_json_body() {
    let detail = ApiError::not_found("Lab", "lab-123 missing").error_detail();
    assert_eq!(detail.code, "NOT_FOUND");
    assert_eq!(detail.message, "Lab not found");
    assert_eq!(detail.details, Some("lab-123 missing".to_string()));
}

#[test]
fn test_internal_error_hides_details() {
    let detail = ApiError::internal("secret db password leaked").error_detail();
    assert_eq!(detail.code, "INTERNAL_ERROR");
    assert!(detail.details.is_none());
}

#[test]
fn test_anyhow_not_found_conversion() {
    let api_err = ApiError::from_error_chain(&chain_text("Lab not found in database"));
    assert_eq!(api_err.status_code(), 404);
}

#[test]
fn test_anyhow_permission_denied_conversion() {
    let api_err = ApiError::from_error_chain(&chain_text("Permission denied"));
    assert_eq!(api_err.status_code(), 403);
}

#[test]
fn test_anyhow_invalid_conversion() {
    let api_err = ApiError::from_error_chain(&chain_text("Invalid input format"));
    assert_eq!(api_err.status_code(), 400);
}

#[test]
fn test_anyhow_generic_error_conversion() {
    let api_err = ApiError::from_error_chain(&chain_text("something unexpected happened"));
    assert_eq!(api_err.status_code(), 500);
}

#[test]
fn forbidden_and_bad_request_bodies() {
    let f = ApiError::forbidden("nope").error_detail();
    assert_eq!((f.code.as_str(), f.message.as_str()), ("FORBIDDEN", "Access denied"));
    assert_eq!(f.details, Some("nope".to_string()));
    let b = ApiError::bad_request("missing field").error_detail();
    assert_eq!((b.code.as_str(), b.message.as_str()), ("BAD_REQUEST", "Invalid request"));
    assert_eq!(b.details, Some("missing field".to_string()));
}

#[test]
fn error_chain_keeps_the_chain_as_details() {
    let text = format!(
        "{:#}",
        anyhow::Error::msg("lab owned by another user".to_string()).context("Failed to delete lab")
    );
    assert_eq!(text, "Failed to delete lab: lab owned by another user");
    let api_err = ApiError::from_error_chain(&text);
    assert_eq!(api_err.status_code(), 403);
    assert_eq!(api_err.error_detail().details, Some(text.clone()));
}

#[test]
fn not_found_wins_over_other_words() {
    let api_err = ApiError::from_error_chain("Invalid lab: not found");
    assert_eq!(api_err.status_code(), 404);
    let d = api_err.error_detail();
    assert_eq!(d.message, "Resource not found");
    assert_eq!(d.details, Some("Invalid lab: not found".to_string()));
}

#[test]
fn unexpected_errors_hide_their_text() {
    let api_err = ApiError::from_error_chain("disk exploded");
    let d = api_err.error_detail();
    assert_eq!(d.code, "INTERNAL_ERROR");
    assert_eq!(d.message, "An internal error occurred");
    assert!(d.details.is_none());
}

#[test]
fn missing_is_a_bad_request() {
    assert_eq!(ApiError::from_error_chain("field missing").status_code(), 400);
}
