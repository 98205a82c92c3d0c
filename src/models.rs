use vstd::prelude::*;

verus! {

/// A request to look up a device by its serial number.
pub struct DeviceRequest {
    pub serial_number: String,
}

/// A request to log in with an email and a password.
pub struct LoginRequest {
    pub email: String,
    pub password: String,
}

/// A status word and a human-readable message.
pub struct GenericResponse {
    pub status: String,
    pub message: String,
}

/// Who owns a device and what it is called.
pub struct WLDeviceResponse {
    pub device_owner: String,
    pub device_name: String,
}

/// The outcome of a successful login.
pub struct LoginResponse {
    pub status: String,
    pub message: String,
    pub token: String,
    pub user_id: String,
}

} // verus!
