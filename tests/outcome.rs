use winklink::login::LoginError;
use winklink::outcome::{
    device_not_found_response, health_response, login_error_response, register_response,
};
use winklink::registration::{ConflictField, RegisterError};
use winklink::store::StoreError;
use winklink::token::TokenError;

#[test]
fn health_answers_success() {
    let r = health_response();
    assert_eq!(r.status, "success");
    assert_eq!(r.message, "WinkLink Simple API");
}

#[test]
fn register_outcomes_map_to_status_codes() {
    let (code, body) = register_response(&Ok("id".to_string()), "alice", "2024-01-01T00:00:00+00:00");
    assert_eq!((code, body.status.as_str()), (201, "success"));
    assert_eq!(body.message, "User alice has been created at 2024-01-01T00:00:00+00:00 [utc]");
    let (code, body) = register_response(&Err(RegisterError::Conflict(ConflictField::Email)), "alice", "");
    assert_eq!((code, body.status.as_str(), body.message.as_str()), (409, "fail", "Email already exists"));
    let (code, _) = register_response(&Err(RegisterError::Conflict(ConflictField::SerialNumber)), "alice", "");
    assert_eq!(code, 409);
    let (code, body) = register_response(&Err(RegisterError::Validation), "alice", "");
    assert_eq!((code, body.status.as_str()), (400, "fail"));
    let (code, body) = register_response(&Err(RegisterError::Storage(StoreError::Conflict)), "alice", "");
    assert_eq!((code, body.status.as_str()), (409, "fail"));
    let (code, body) = register_response(&Err(RegisterError::Storage(StoreError::TransactionFull)), "alice", "");
    assert_eq!((code, body.status.as_str()), (500, "error"));
    assert_eq!(register_response(&Err(RegisterError::Randomness), "alice", "").0, 500);
    assert_eq!(register_response(&Err(RegisterError::Clock), "alice", "").0, 500);
    let (code, _) = register_response(&Err(RegisterError::Hashing), "alice", "");
    assert_eq!(code, 500);
}

#[test]
fn login_errors_map_to_status_codes() {
    let (code, body) = login_error_response(LoginError::InvalidCredentials);
    assert_eq!((code, body.message.as_str()), (401, "Invalid email or password"));
    assert_eq!(login_error_response(LoginError::Validation).0, 400);
    let (code, body) = login_error_response(LoginError::Token(TokenError::Signing));
    assert_eq!((code, body.status.as_str()), (500, "error"));
}

#[test]
fn store_and_clock_failures_are_server_faults() {
    let (code, body) = winklink::outcome::store_failure_response();
    assert_eq!((code, body.status.as_str(), body.message.as_str()), (500, "error", "Failed to query database"));
    let (code, body) = winklink::outcome::clock_failure_response();
    assert_eq!((code, body.message.as_str()), (500, "Failed to read the clock"));
}

#[test]
fn missing_device_is_not_found() {
    let (code, body) = device_not_found_response();
    assert_eq!((code, body.status.as_str()), (404, "fail"));
}
