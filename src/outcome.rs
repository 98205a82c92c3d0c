use vstd::prelude::*;
use vstd::string::StringExecFns;

use crate::login::LoginError;
use crate::models::GenericResponse;
use crate::registration::{ConflictField, RegisterError};
use crate::store::StoreError;

verus! {

pub const STATUS_OK: u16 = 200;
pub const STATUS_CREATED: u16 = 201;
pub const STATUS_BAD_REQUEST: u16 = 400;
pub const STATUS_UNAUTHORIZED: u16 = 401;
pub const STATUS_NOT_FOUND: u16 = 404;
pub const STATUS_CONFLICT: u16 = 409;
pub const STATUS_INTERNAL_ERROR: u16 = 500;

/// The status word of a response: "success" for a success code, "error"
/// for a server fault, "fail" for a client fault or a conflict.
pub open spec fn status_word(code: u16) -> Seq<char> {
    if code == STATUS_OK || code == STATUS_CREATED {
        "success"@
    } else if code == STATUS_INTERNAL_ERROR {
        "error"@
    } else {
        "fail"@
    }
}

fn response(status: &str, message: &str) -> (r: GenericResponse)
    ensures
        r.status@ == status@,
        r.message@ == message@,
{
    GenericResponse { status: status.to_owned(), message: message.to_owned() }
}

/// The liveness answer.
pub fn health_response() -> (r: GenericResponse)
    ensures
        r.status@ == "success"@,
        r.message@ == "WinkLink Simple API"@,
{
    response("success", "WinkLink Simple API")
}

/// The status code of a registration's outcome.
pub open spec fn register_status(r: Result<String, RegisterError>) -> u16 {
    match r {
        Ok(_) => STATUS_CREATED,
        Err(RegisterError::Conflict(_)) => STATUS_CONFLICT,
        Err(RegisterError::Storage(StoreError::Conflict)) => STATUS_CONFLICT,
        Err(RegisterError::Validation) => STATUS_BAD_REQUEST,
        Err(_) => STATUS_INTERNAL_ERROR,
    }
}

/// The message of a registration's outcome.
pub open spec fn register_message(
    r: Result<String, RegisterError>,
    username: Seq<char>,
    created_at: Seq<char>,
) -> Seq<char> {
    match r {
        Ok(_) => "User "@ + username + " has been created at "@ + created_at + " [utc]"@,
        Err(RegisterError::Conflict(ConflictField::SerialNumber)) => "Serial number already exists"@,
        Err(RegisterError::Conflict(ConflictField::Email)) => "Email already exists"@,
        Err(RegisterError::Conflict(ConflictField::Username)) => "Username already exists"@,
        Err(RegisterError::Validation) => "Serial number must be at most 12 characters long"@,
        Err(RegisterError::Storage(StoreError::Conflict)) => "A record with these details already exists"@,
        Err(_) => "Failed to register the device"@,
    }
}

fn created_message(username: &str, created_at: &str) -> (m: String)
    ensures
        m@ == "User "@ + username@ + " has been created at "@ + created_at@ + " [utc]"@,
{
    let mut m = String::from_str("User ");
    m.append(username);
    m.append(" has been created at ");
    m.append(created_at);
    m.append(" [utc]");
    m
}

/// The status code and message of a registration's outcome, naming the
/// user and the creation time on success. Store and hashing failures get a
/// generic message.
pub fn register_response(r: &Result<String, RegisterError>, username: &str, created_at: &str) -> (out: (
    u16,
    GenericResponse,
))
    ensures
        out.0 == register_status(*r),
        out.1.status@ == status_word(out.0),
        out.1.message@ == register_message(*r, username@, created_at@),
{
    match r {
        Ok(_) => (
            STATUS_CREATED,
            GenericResponse { status: "success".to_owned(), message: created_message(username, created_at) },
        ),
        Err(RegisterError::Conflict(ConflictField::SerialNumber)) => (
            STATUS_CONFLICT,
            response("fail", "Serial number already exists"),
        ),
        Err(RegisterError::Conflict(ConflictField::Email)) => (
            STATUS_CONFLICT,
            response("fail", "Email already exists"),
        ),
        Err(RegisterError::Conflict(ConflictField::Username)) => (
            STATUS_CONFLICT,
            response("fail", "Username already exists"),
        ),
        Err(RegisterError::Validation) => (
            STATUS_BAD_REQUEST,
            response("fail", "Serial number must be at most 12 characters long"),
        ),
        Err(RegisterError::Storage(StoreError::Conflict)) => (
            STATUS_CONFLICT,
            response("fail", "A record with these details already exists"),
        ),
        Err(_) => (STATUS_INTERNAL_ERROR, response("error", "Failed to register the device")),
    }
}

/// The status code and message of a store that could not be read or
/// written.
pub fn store_failure_response() -> (out: (u16, GenericResponse))
    ensures
        out.0 == STATUS_INTERNAL_ERROR,
        out.1.status@ == status_word(out.0),
        out.1.message@ == "Failed to query database"@,
{
    (STATUS_INTERNAL_ERROR, response("error", "Failed to query database"))
}

/// The status code and message of a clock that could not be read.
pub fn clock_failure_response() -> (out: (u16, GenericResponse))
    ensures
        out.0 == STATUS_INTERNAL_ERROR,
        out.1.status@ == status_word(out.0),
        out.1.message@ == "Failed to read the clock"@,
{
    (STATUS_INTERNAL_ERROR, response("error", "Failed to read the clock"))
}

/// The status code and message of a lookup that found no device.
pub fn device_not_found_response() -> (out: (u16, GenericResponse))
    ensures
        out.0 == STATUS_NOT_FOUND,
        out.1.status@ == status_word(out.0),
        out.1.message@ == "Device with this serial number not found"@,
{
    (STATUS_NOT_FOUND, response("fail", "Device with this serial number not found"))
}

/// The status code of a failed login.
pub open spec fn login_error_status(e: LoginError) -> u16 {
    match e {
        LoginError::Validation => STATUS_BAD_REQUEST,
        LoginError::InvalidCredentials => STATUS_UNAUTHORIZED,
        LoginError::Token(_) => STATUS_INTERNAL_ERROR,
    }
}

/// The message of a failed login.
pub open spec fn login_error_message(e: LoginError) -> Seq<char> {
    match e {
        LoginError::Validation => "Email and password must not be empty"@,
        LoginError::InvalidCredentials => "Invalid email or password"@,
        LoginError::Token(_) => "Failed to issue a token"@,
    }
}

/// The status code and message of a failed login. A wrong email and a wrong
/// password give the same answer.
pub fn login_error_response(e: LoginError) -> (out: (u16, GenericResponse))
    ensures
        out.0 == login_error_status(e),
        out.1.status@ == status_word(out.0),
        out.1.message@ == login_error_message(e),
{
    match e {
        LoginError::Validation => (
            STATUS_BAD_REQUEST,
            response("fail", "Email and password must not be empty"),
        ),
        LoginError::InvalidCredentials => (
            STATUS_UNAUTHORIZED,
            response("fail", "Invalid email or password"),
        ),
        LoginError::Token(_) => (STATUS_INTERNAL_ERROR, response("error", "Failed to issue a token")),
    }
}

} // verus!
