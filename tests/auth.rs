use std::collections::HashMap;

use jsonwebtoken::{decode, DecodingKey, Validation};
use winklink::credentials::{hash_password, verify_password};
use winklink::login::{login, LoginError};
use winklink::models::LoginRequest;
use winklink::registration::{ConflictField, Register, RegisterError, WLRegister};
use winklink::store::Database;
use winklink::token::{TokenError, TokenIssuer, DEFAULT_TOKEN_TTL_SECS};

const SECRET: &[u8] = b"test-signing-key";

fn now() -> u64 {
    std::time::SystemTime::now().duration_since(std::time::UNIX_EPOCH).unwrap().as_secs()
}

fn issuer() -> TokenIssuer {
    TokenIssuer::new(SECRET.to_vec(), DEFAULT_TOKEN_TTL_SECS).unwrap()
}

fn req(email: &str, password: &str) -> LoginRequest {
    LoginRequest { email: email.to_string(), password: password.to_string() }
}

fn registered_db() -> (Database, String) {
    let mut db = Database::new();
    let id = Register::register(
        &mut db,
        &WLRegister {
            serial_number: "SN12345678".to_string(),
            email: "a@x.com".to_string(),
            account_created_at: None,
            username: "alice".to_string(),
            password: "pw123".to_string(),
            device_name: "phone".to_string(),
        },
    )
    .unwrap();
    (db, id)
}

fn claims(token: &str) -> HashMap<String, serde_json::Value> {
    decode::<HashMap<String, serde_json::Value>>(
        token,
        &DecodingKey::from_secret(SECRET),
        &Validation::default(),
    )
    .expect("token decodes with the signing key")
    .claims
}

#[test]
fn hash_then_verify_round_trips() {
    let h = hash_password("pw123").unwrap();
    assert_ne!(h, "pw123");
    assert!(verify_password("pw123", &h));
    assert!(!verify_password("pw124", &h));
    assert!(!verify_password("", &h));
}

#[test]
fn hashes_are_salted() {
    let a = hash_password("same").unwrap();
    let b = hash_password("same").unwrap();
    assert_ne!(a, b);
    assert!(verify_password("same", &a) && verify_password("same", &b));
}

#[test]
fn malformed_hash_is_a_mismatch() {
    assert!(!verify_password("pw123", "not a hash"));
    assert!(!verify_password("pw123", ""));
}

#[test]
fn scenario_register_lookup_login() {
    let (mut db, id) = registered_db();
    let dev = db.lookup_device(&"SN12345678".to_string()).unwrap();
    assert_eq!((dev.device_owner.as_str(), dev.device_name.as_str()), ("alice", "phone"));
    let ok = login(&db, &req("a@x.com", "pw123"), &issuer(), now()).unwrap();
    assert!(!ok.token.is_empty());
    assert_eq!(ok.user_id, id);
    assert_eq!(ok.status, "success");
    assert_eq!(ok.message, "Login successful");
    assert!(matches!(login(&db, &req("a@x.com", "wrong"), &issuer(), now()), Err(LoginError::InvalidCredentials)));
    let again = Register::register(
        &mut db,
        &WLRegister {
            serial_number: "SN12345678".to_string(),
            email: "other@x.com".to_string(),
            account_created_at: None,
            username: "other".to_string(),
            password: "pw".to_string(),
            device_name: "tv".to_string(),
        },
    );
    assert!(matches!(again, Err(RegisterError::Conflict(ConflictField::SerialNumber))));
}

#[test]
fn login_token_names_the_registered_identity() {
    let (db, id) = registered_db();
    let t = now();
    let ok = login(&db, &req("a@x.com", "pw123"), &issuer(), t).unwrap();
    assert_ne!(ok.token, id);
    let c = claims(&ok.token);
    assert_eq!(c["sub"].as_str(), Some(id.as_str()));
    assert_eq!(c["iat"].as_u64(), Some(t));
    assert_eq!(c["exp"].as_u64(), Some(t + 86400));
    assert!(c["exp"].as_u64().unwrap() > c["iat"].as_u64().unwrap());
}

#[test]
fn unknown_email_and_wrong_password_look_the_same() {
    let (db, _) = registered_db();
    let a = login(&db, &req("nobody@x.com", "pw123"), &issuer(), now());
    let b = login(&db, &req("a@x.com", "nope"), &issuer(), now());
    assert!(matches!(a, Err(LoginError::InvalidCredentials)));
    assert!(matches!(b, Err(LoginError::InvalidCredentials)));
}

#[test]
fn empty_email_or_password_fails_validation() {
    let (db, _) = registered_db();
    assert!(matches!(login(&db, &req("", "pw123"), &issuer(), now()), Err(LoginError::Validation)));
    assert!(matches!(login(&db, &req("a@x.com", ""), &issuer(), now()), Err(LoginError::Validation)));
}

#[test]
fn login_without_a_signing_key_fails() {
    let (db, _) = registered_db();
    let keyless = TokenIssuer::new(Vec::new(), 60).unwrap();
    let r = login(&db, &req("a@x.com", "pw123"), &keyless, now());
    assert!(matches!(r, Err(LoginError::Token(TokenError::SecretUnavailable))));
}

#[test]
fn expiry_past_the_clock_range_is_refused() {
    let (db, _) = registered_db();
    let r = login(&db, &req("a@x.com", "pw123"), &issuer(), u64::MAX - 10);
    assert!(matches!(r, Err(LoginError::Token(TokenError::ExpiryOverflow))));
}

#[test]
fn zero_lifetime_issuer_is_refused() {
    assert!(TokenIssuer::new(SECRET.to_vec(), 0).is_none());
}

#[test]
fn claims_carry_subject_and_times() {
    let c = TokenIssuer::new(SECRET.to_vec(), 604800).unwrap().claims_for(&"id-9".to_string(), 1000).unwrap();
    assert_eq!(c.sub, "id-9");
    assert_eq!(c.iat, 1000);
    assert_eq!(c.exp, 605800);
}

#[test]
fn issued_token_depends_on_the_key() {
    let a = issuer().issue(&"id-1".to_string(), 1000).unwrap();
    let b = TokenIssuer::new(b"another".to_vec(), DEFAULT_TOKEN_TTL_SECS).unwrap().issue(&"id-1".to_string(), 1000).unwrap();
    assert_eq!(a.split('.').count(), 3);
    assert_ne!(a, b);
    assert_eq!(a, issuer().issue(&"id-1".to_string(), 1000).unwrap());
}

#[test]
fn hash_is_a_phc_string_carrying_the_salt() {
    let salt = vec![3u8; 16];
    let h = winklink::credentials::hash_password_with_salt("pw123", &salt).unwrap();
    assert!(h.starts_with("$argon2id$v=19$m=19456,t=2,p=1$"));
    let fields: Vec<&str> = h.split('$').collect();
    assert_eq!(fields.len(), 6);
    assert_eq!(fields[4], "AwMDAwMDAwMDAwMDAwMDAw");
    assert_eq!(h, winklink::credentials::hash_password_with_salt("pw123", &salt).unwrap());
    assert_ne!(h, winklink::credentials::hash_password_with_salt("pw123", &vec![4u8; 16]).unwrap());
    assert!(verify_password("pw123", &h));
}

#[test]
fn salt_length_outside_range_fails_hashing() {
    assert!(winklink::credentials::hash_password_with_salt("pw", &vec![0u8; 7]).is_err());
    assert!(winklink::credentials::hash_password_with_salt("pw", &vec![0u8; 49]).is_err());
    assert!(winklink::credentials::hash_password_with_salt("pw", &vec![0u8; 48]).is_ok());
    assert_eq!(winklink::credentials::fresh_salt().unwrap().len(), 16);
}
