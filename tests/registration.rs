use winklink::registration::{ConflictField, Register, RegisterError, WLRegister};
use winklink::records::WLdbKeyword;
use winklink::store::{Database, StoreError};

fn request(serial: &str, email: &str, username: &str, password: &str, device: &str) -> WLRegister {
    WLRegister {
        serial_number: serial.to_string(),
        email: email.to_string(),
        account_created_at: None,
        username: username.to_string(),
        password: password.to_string(),
        device_name: device.to_string(),
    }
}

#[test]
fn register_then_lookup_returns_owner_and_device() {
    let mut db = Database::new();
    let id = Register::register(&mut db, &request("SN12345678", "a@x.com", "alice", "pw123", "phone"))
        .expect("registration succeeds");
    assert_eq!(id.len(), 36);
    assert_eq!(db.row_count(), 1);
    let found = db.lookup_device(&"SN12345678".to_string()).expect("device found");
    assert_eq!(found.device_owner, "alice");
    assert_eq!(found.device_name, "phone");
    assert!(db.keyword_exists(WLdbKeyword::UUID(id)));
    assert!(db.lookup_device(&"SN00000000".to_string()).is_none());
}

#[test]
fn stored_password_is_hashed_not_plain() {
    let mut db = Database::new();
    Register::register(&mut db, &request("SN1", "b@x.com", "bob", "secret", "watch")).unwrap();
    let rec = db.record(0);
    let hash = rec.password_hash.clone().expect("hash stored");
    assert_ne!(hash, "secret");
    assert!(hash.starts_with("$argon2"));
    assert_eq!(rec.device_owner.as_deref(), Some("bob"));
    assert_eq!(rec.device_name.as_deref(), Some("watch"));
    assert!(!rec.created_at.is_empty());
}

#[test]
fn duplicate_serial_is_a_conflict_and_adds_no_row() {
    let mut db = Database::new();
    Register::register(&mut db, &request("SN12345678", "a@x.com", "alice", "pw123", "phone")).unwrap();
    let r = Register::register(&mut db, &request("SN12345678", "c@x.com", "carol", "pw", "tablet"));
    assert!(matches!(r, Err(RegisterError::Conflict(ConflictField::SerialNumber))));
    assert_eq!(db.row_count(), 1);
}

#[test]
fn duplicate_email_is_a_conflict_and_adds_no_row() {
    let mut db = Database::new();
    Register::register(&mut db, &request("SN1", "a@x.com", "alice", "pw123", "phone")).unwrap();
    let r = Register::register(&mut db, &request("SN2", "a@x.com", "carol", "pw", "tablet"));
    assert!(matches!(r, Err(RegisterError::Conflict(ConflictField::Email))));
    assert_eq!(db.row_count(), 1);
}

#[test]
fn duplicate_username_is_a_conflict_and_adds_no_row() {
    let mut db = Database::new();
    Register::register(&mut db, &request("SN1", "a@x.com", "alice", "pw123", "phone")).unwrap();
    let r = Register::register(&mut db, &request("SN2", "c@x.com", "alice", "pw", "tablet"));
    assert!(matches!(r, Err(RegisterError::Conflict(ConflictField::Username))));
    assert_eq!(db.row_count(), 1);
}

#[test]
fn serial_longer_than_twelve_fails_validation() {
    let mut db = Database::new();
    let r = Register::register(&mut db, &request("SN12345678901", "a@x.com", "alice", "pw", "phone"));
    assert!(matches!(r, Err(RegisterError::Validation)));
    assert_eq!(db.row_count(), 0);
    assert!(!db.keyword_exists(WLdbKeyword::SerialNumber("SN12345678901".to_string())));
}

#[test]
fn serial_of_exactly_twelve_is_accepted() {
    let mut db = Database::new();
    let r = Register::register(&mut db, &request("SN1234567890", "a@x.com", "alice", "pw", "phone"));
    assert!(r.is_ok());
    assert_eq!(db.row_count(), 1);
}

#[test]
fn failure_at_third_step_leaves_no_row() {
    let mut db = Database::new();
    let mut tx = db.start_transaction();
    let id = Register::insert_serial_and_email(&db, &mut tx, "SN777", "d@x.com").unwrap();
    Register::update_username_and_password(&mut tx, &id, "dave", "pw").unwrap();
    // the device-name write fails here: the unit is rolled back
    tx.rollback();
    assert!(!db.keyword_exists(WLdbKeyword::UUID(id)));
    assert_eq!(db.row_count(), 0);
    assert!(Register::register(&mut db, &request("SN777", "d@x.com", "dave", "pw", "phone")).is_ok());
}

#[test]
fn staged_record_is_invisible_until_commit() {
    let mut db = Database::new();
    let mut tx = db.start_transaction();
    let id = Register::insert_identity(&db, &mut tx, "id-1".to_string(), "SN5", "e@x.com", "t0".to_string())
        .unwrap();
    assert_eq!(id, "id-1");
    assert!(!db.keyword_exists(WLdbKeyword::SerialNumber("SN5".to_string())));
    Register::update_device_name(&mut tx, "id-1", "lamp").unwrap();
    db.commit_transaction(tx).unwrap();
    assert!(db.keyword_exists(WLdbKeyword::SerialNumber("SN5".to_string())));
    assert!(db.keyword_exists(WLdbKeyword::DeviceName("lamp".to_string())));
}

#[test]
fn racing_registration_fails_at_commit() {
    let mut db = Database::new();
    let mut first = db.start_transaction();
    let mut second = db.start_transaction();
    Register::insert_identity(&db, &mut first, "id-1".to_string(), "SN9", "f@x.com", "t0".to_string()).unwrap();
    Register::insert_identity(&db, &mut second, "id-2".to_string(), "SN9", "g@x.com", "t0".to_string()).unwrap();
    assert!(db.commit_transaction(first).is_ok());
    assert!(matches!(db.commit_transaction(second), Err(StoreError::Conflict)));
    assert_eq!(db.row_count(), 1);
}

#[test]
fn first_step_refuses_a_taken_identity() {
    let mut db = Database::new();
    let mut tx = db.start_transaction();
    Register::insert_identity(&db, &mut tx, "id-1".to_string(), "SN1", "a@x.com", "t0".to_string()).unwrap();
    db.commit_transaction(tx).unwrap();
    let mut tx = db.start_transaction();
    let r = Register::insert_identity(&db, &mut tx, "id-1".to_string(), "SN2", "b@x.com", "t0".to_string());
    assert!(matches!(r, Err(RegisterError::Storage(StoreError::Conflict))));
}

#[test]
fn transaction_stages_one_record() {
    let db = Database::new();
    let mut tx = db.start_transaction();
    Register::insert_identity(&db, &mut tx, "id-1".to_string(), "SN1", "a@x.com", "t0".to_string()).unwrap();
    let r = Register::insert_identity(&db, &mut tx, "id-2".to_string(), "SN2", "b@x.com", "t0".to_string());
    assert!(matches!(r, Err(RegisterError::Storage(StoreError::TransactionFull))));
}

#[test]
fn hashing_outcome_decides_second_step() {
    let db = Database::new();
    let mut tx = db.start_transaction();
    Register::insert_identity(&db, &mut tx, "id-1".to_string(), "SN1", "a@x.com", "t0".to_string()).unwrap();
    let r = Register::apply_credentials(&mut tx, "id-1", "amy", Err(winklink::credentials::HashingError::Unhashable));
    assert!(matches!(r, Err(RegisterError::Hashing)));
    let r = Register::apply_credentials(&mut tx, "id-1", "amy", Err(winklink::credentials::HashingError::RandomSource));
    assert!(matches!(r, Err(RegisterError::Randomness)));
    assert!(Register::apply_credentials(&mut tx, "id-1", "amy", Ok("h".to_string())).is_ok());
}

#[test]
fn load_row_enforces_unique_email() {
    let mut db = Database::new();
    Register::register(&mut db, &request("SN1", "a@x.com", "alice", "pw", "phone")).unwrap();
    let mut other = Database::new();
    let rec = db.record(0);
    let copy = winklink::records::UserRecord {
        identity_id: "other".to_string(),
        serial_number: "SN2".to_string(),
        device_name: None,
        device_owner: None,
        email: rec.email.clone(),
        password_hash: None,
        created_at: "t0".to_string(),
    };
    assert!(matches!(db.load_row(copy), Err(StoreError::Conflict)));
    let fresh = winklink::records::UserRecord {
        identity_id: "x".to_string(),
        serial_number: "SN3".to_string(),
        device_name: None,
        device_owner: None,
        email: "z@x.com".to_string(),
        password_hash: None,
        created_at: "t0".to_string(),
    };
    assert!(other.load_row(fresh).is_ok());
    assert_eq!(other.row_count(), 1);
    assert_eq!(db.lookup_device(&"SN1".to_string()).unwrap().device_owner, "alice");
}

#[test]
fn twelve_characters_count_not_bytes() {
    let mut db = Database::new();
    let serial = "ÄÖÜäöüßéèêëï";
    assert_eq!(serial.chars().count(), 12);
    assert!(serial.len() > 12);
    assert!(Register::register(&mut db, &request(serial, "u@x.com", "ulla", "pw", "radio")).is_ok());
    let r = Register::register(&mut db, &request("ÄÖÜäöüßéèêëïö", "v@x.com", "vera", "pw", "radio"));
    assert!(matches!(r, Err(RegisterError::Validation)));
}

#[test]
fn first_step_mints_a_36_character_identity() {
    let db = Database::new();
    let mut tx = db.start_transaction();
    let id = Register::insert_serial_and_email(&db, &mut tx, "SN1", "a@x.com").unwrap();
    assert_eq!(id.len(), 36);
    let chars: Vec<char> = id.chars().collect();
    for (i, c) in chars.iter().enumerate() {
        match i {
            8 | 13 | 18 | 23 => assert_eq!(*c, '-'),
            14 => assert_eq!(*c, '4'),
            19 => assert!("89ab".contains(*c)),
            _ => assert!(c.is_ascii_hexdigit() && !c.is_ascii_uppercase()),
        }
    }
}

#[test]
fn second_step_without_a_staged_identity_changes_nothing() {
    let mut db = Database::new();
    let mut tx = db.start_transaction();
    Register::insert_identity(&db, &mut tx, "id-1".to_string(), "SN1", "a@x.com", "t0".to_string()).unwrap();
    assert!(Register::update_username_and_password(&mut tx, "other", "amy", "pw").is_ok());
    db.commit_transaction(tx).unwrap();
    let rec = db.record(0);
    assert!(rec.device_owner.is_none() && rec.password_hash.is_none());
}

#[test]
fn second_step_sets_owner_and_a_verifying_hash() {
    let mut db = Database::new();
    let mut tx = db.start_transaction();
    Register::insert_identity(&db, &mut tx, "id-1".to_string(), "SN1", "a@x.com", "t0".to_string()).unwrap();
    assert!(Register::update_username_and_password(&mut tx, "id-1", "amy", "pw").is_ok());
    db.commit_transaction(tx).unwrap();
    let rec = db.record(0);
    assert_eq!(rec.device_owner.as_deref(), Some("amy"));
    let h = rec.password_hash.clone().unwrap();
    assert_ne!(h, "pw");
    assert!(winklink::credentials::verify_password("pw", &h));
}

#[test]
fn first_conflict_reports_fields_in_order() {
    let mut db = Database::new();
    Register::register(&mut db, &request("SN1", "a@x.com", "alice", "pw", "phone")).unwrap();
    assert!(matches!(Register::first_conflict(&db, &request("SN1", "a@x.com", "alice", "pw", "d")), Some(ConflictField::SerialNumber)));
    assert!(matches!(Register::first_conflict(&db, &request("SN2", "a@x.com", "alice", "pw", "d")), Some(ConflictField::Email)));
    assert!(matches!(Register::first_conflict(&db, &request("SN2", "b@x.com", "alice", "pw", "d")), Some(ConflictField::Username)));
    assert!(Register::first_conflict(&db, &request("SN2", "b@x.com", "bob", "pw", "d")).is_none());
}

#[test]
fn register_with_given_identity_time_and_salt() {
    let mut db = Database::new();
    let salt = vec![7u8; 16];
    let id = Register::register_with(
        &mut db,
        &request("SN42", "h@x.com", "hana", "pw123", "kettle"),
        "fixed-id".to_string(),
        "2024-05-01T10:00:00+00:00".to_string(),
        &salt,
    )
    .unwrap();
    assert_eq!(id, "fixed-id");
    let rec = db.record(0);
    assert_eq!(rec.created_at, "2024-05-01T10:00:00+00:00");
    assert_eq!(
        rec.password_hash.clone().unwrap(),
        winklink::credentials::hash_password_with_salt("pw123", &salt).unwrap()
    );
}

#[test]
fn register_with_a_taken_identity_is_a_storage_conflict() {
    let mut db = Database::new();
    let salt = vec![1u8; 16];
    Register::register_with(&mut db, &request("SN1", "a@x.com", "a", "pw", "d"), "id".to_string(), "t".to_string(), &salt)
        .unwrap();
    let r = Register::register_with(&mut db, &request("SN2", "b@x.com", "b", "pw", "d"), "id".to_string(), "t".to_string(), &salt);
    assert!(matches!(r, Err(RegisterError::Storage(StoreError::Conflict))));
    assert_eq!(db.row_count(), 1);
}

#[test]
fn register_with_a_short_salt_fails_hashing_and_adds_no_row() {
    let mut db = Database::new();
    let r = Register::register_with(&mut db, &request("SN1", "a@x.com", "a", "pw", "d"), "id".to_string(), "t".to_string(), &vec![1u8; 4]);
    assert!(matches!(r, Err(RegisterError::Hashing)));
    assert_eq!(db.row_count(), 0);
    assert!(!db.keyword_exists(WLdbKeyword::UUID("id".to_string())));
}
