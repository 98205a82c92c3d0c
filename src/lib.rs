//! Device registration and authentication: a user table with unique
//! constraints and staged transactions, the three-step registration
//! protocol, password hashing and session-token issuance.

pub mod records;
pub mod models;
pub mod store;
pub mod b64;
pub mod credentials;
pub mod token;
pub mod registration;
pub mod login;
pub mod outcome;
