use vstd::prelude::*;
use vstd::string::StrSliceExecFns;

use crate::credentials::{
    random_bytes,
    argon2_accepts, hash_password, hash_password_with_salt, hashable, phc_hash, fresh_salt, HashingError,
    MAX_PASSWORD_BYTES,
};
use crate::login::login_of;
use crate::models::LoginResponse;
use crate::records::{clashes, clashes_any, has_keyword, keyword_in, opt_is, unique_rows, UserRecord, WLdbKeyword};
use crate::store::{text_or_empty, Database, StoreError, Transaction};
use crate::token::{jwt_hs256, TokenIssuer};

verus! {

/// Longest serial number accepted, in characters.
pub const MAX_SERIAL_LEN: usize = 12;

/// A registration request: the device, its owner's contact and credentials.
pub struct WLRegister {
    pub serial_number: String,
    pub email: String,
    /// When the account was created, as RFC 3339 text, where the client gives it.
    pub account_created_at: Option<String>,
    pub username: String,
    pub password: String,
    pub device_name: String,
}

/// The unique field that a registration found taken.
#[derive(Debug, Clone, Copy)]
pub enum ConflictField {
    SerialNumber,
    Email,
    Username,
}

/// Why a registration did not complete. The table is then as it was.
#[derive(Debug, Clone, Copy)]
pub enum RegisterError {
    /// The serial number is longer than twelve characters.
    Validation,
    /// A pre-check found the value already registered.
    Conflict(ConflictField),
    /// The password could not be hashed.
    Hashing,
    /// The table refused a write.
    Storage(StoreError),
    /// The operating system's random source failed.
    Randomness,
    /// The system clock is unreadable or out of range.
    Clock,
}

/// A lowercase hexadecimal digit.
pub open spec fn is_lower_hex(c: char) -> bool {
    ('0' <= c && c <= '9') || ('a' <= c && c <= 'f')
}

/// `s` is a version-4 UUID in hyphenated lowercase form: hyphens at 8, 13,
/// 18 and 23, the version digit `4` at 14, the variant digit at 19, and
/// hexadecimal digits elsewhere.
pub open spec fn uuid_v4_text(s: Seq<char>) -> bool {
    &&& s.len() == 36
    &&& forall|i: int|
        0 <= i < 36 ==> if i == 8 || i == 13 || i == 18 || i == 23 {
            #[trigger] s[i] == '-'
        } else if i == 14 {
            s[i] == '4'
        } else if i == 19 {
            s[i] == '8' || s[i] == '9' || s[i] == 'a' || s[i] == 'b'
        } else {
            is_lower_hex(s[i])
        }
}

/// The RFC 3339 text of the instant `secs` seconds and `nanos` nanoseconds
/// after the Unix epoch.
pub uninterp spec fn rfc3339_text(secs: i64, nanos: u32) -> Seq<char>;

/// Relies on uuid's `Builder::from_random_bytes` and `Uuid`'s `Display`:
/// version 4 and the RFC 4122 variant are set over the bytes, and the
/// identifier is written hyphenated in lowercase hexadecimal.
#[verifier::external_body]
fn uuid_v4_from(bytes: &Vec<u8>) -> (r: String)
    requires
        bytes@.len() == 16,
    ensures
        uuid_v4_text(r@),
{
    let mut b = [0u8; 16];
    b.copy_from_slice(bytes);
    uuid::Builder::from_random_bytes(b).into_uuid().to_string()
}

/// Relies on `SystemTime::now` and `duration_since(UNIX_EPOCH)`: the time
/// since the epoch as seconds and the nanoseconds below a second, or nothing
/// where the clock is set before the epoch.
#[verifier::external_body]
fn unix_time() -> (r: Option<(u64, u32)>)
    ensures
        r matches Some(t) ==> t.1 < 1_000_000_000,
{
    match std::time::SystemTime::now().duration_since(std::time::UNIX_EPOCH) {
        Ok(d) => Some((d.as_secs(), d.subsec_nanos())),
        Err(_) => None,
    }
}

/// Relies on chrono's `DateTime::from_timestamp` and `to_rfc3339`: the
/// instant as RFC 3339 text, or nothing where it is out of chrono's range.
#[verifier::external_body]
fn rfc3339_of(secs: i64, nanos: u32) -> (r: Option<String>)
    ensures
        r matches Some(t) ==> t@ == rfc3339_text(secs, nanos),
{
    match chrono::DateTime::from_timestamp(secs, nanos) {
        Some(t) => Some(t.to_rfc3339()),
        None => None,
    }
}

/// A fresh random identity; nothing where the random source fails.
fn new_identity_id() -> (r: Option<String>)
    ensures
        r matches Some(id) ==> uuid_v4_text(id@),
{
    match random_bytes(16) {
        Some(b) => Some(uuid_v4_from(&b)),
        None => None,
    }
}

/// The current time as RFC 3339 text; nothing where the clock cannot give it.
fn now_rfc3339() -> (r: Option<String>)
    ensures
        r matches Some(t) ==> exists|secs: i64, nanos: u32| t@ == #[trigger] rfc3339_text(secs, nanos),
{
    match unix_time() {
        Some((secs, nanos)) => {
            if secs > i64::MAX as u64 {
                None
            } else {
                rfc3339_of(secs as i64, nanos)
            }
        },
        None => None,
    }
}

/// No row holds an identity of UUID length.
pub open spec fn no_uuid_length_ids(rows: Seq<UserRecord>) -> bool {
    forall|i: int| 0 <= i < rows.len() ==> (#[trigger] rows[i]).identity_id@.len() != 36
}

/// The serial number is short enough to be stored.
pub open spec fn serial_fits(serial: Seq<char>) -> bool {
    serial.len() <= MAX_SERIAL_LEN
}

/// Some row shares the identity, serial number or email.
pub open spec fn keys_taken(
    rows: Seq<UserRecord>,
    identity: Seq<char>,
    serial: Seq<char>,
    email: Seq<char>,
) -> bool {
    exists|i: int|
        0 <= i < rows.len() && ((#[trigger] rows[i]).identity_id@ == identity
            || rows[i].serial_number@ == serial || rows[i].email@ == email)
}

/// `r` is the record that the first step writes.
pub open spec fn first_step_record(
    r: UserRecord,
    identity: Seq<char>,
    serial: Seq<char>,
    email: Seq<char>,
) -> bool {
    &&& r.identity_id@ == identity
    &&& r.serial_number@ == serial
    &&& r.email@ == email
    &&& r.device_name is None
    &&& r.device_owner is None
    &&& r.password_hash is None
}

/// The staged record is the one that the first step writes.
pub open spec fn staged_first_step(
    p: Option<UserRecord>,
    identity: Seq<char>,
    serial: Seq<char>,
    email: Seq<char>,
) -> bool {
    match p {
        Some(r) => first_step_record(r, identity, serial, email),
        None => false,
    }
}

/// Some row shares the serial number or the email.
pub open spec fn contact_taken(rows: Seq<UserRecord>, serial: Seq<char>, email: Seq<char>) -> bool {
    exists|i: int|
        0 <= i < rows.len() && ((#[trigger] rows[i]).serial_number@ == serial || rows[i].email@
            == email)
}

/// `after` is `before` with the owner set and a hash of `password` stored,
/// where `before` is the staged record of this identity; else unchanged.
pub open spec fn credentials_set(
    before: Option<UserRecord>,
    after: Option<UserRecord>,
    identity: Seq<char>,
    owner: Seq<char>,
    password: Seq<char>,
) -> bool {
    exists|h: String|
        #[trigger] credentials_applied(before, after, identity, owner, h) && (stages(before, identity)
            ==> argon2_accepts(password, h@))
}

/// `p` is a staged record with this identity.
pub open spec fn stages(p: Option<UserRecord>, identity: Seq<char>) -> bool {
    match p {
        Some(r) => r.identity_id@ == identity,
        None => false,
    }
}

/// `after` is `before` with the owner set and `hash` stored, where `before`
/// is the staged record of this identity; else unchanged.
pub open spec fn credentials_applied(
    before: Option<UserRecord>,
    after: Option<UserRecord>,
    identity: Seq<char>,
    owner: Seq<char>,
    hash: String,
) -> bool {
    match before {
        Some(b) => if b.identity_id@ == identity {
            match after {
                Some(a) => {
                    &&& a.identity_id == b.identity_id
                    &&& a.serial_number == b.serial_number
                    &&& a.email == b.email
                    &&& a.device_name == b.device_name
                    &&& a.created_at == b.created_at
                    &&& opt_is(a.device_owner, owner)
                    &&& a.password_hash == Some(hash)
                },
                None => false,
            }
        } else {
            after == before
        },
        None => after is None,
    }
}

/// `after` is `before` with the device name set, where `before` is the
/// staged record of this identity; else unchanged.
pub open spec fn device_name_set(
    before: Option<UserRecord>,
    after: Option<UserRecord>,
    identity: Seq<char>,
    name: Seq<char>,
) -> bool {
    match before {
        Some(b) => if b.identity_id@ == identity {
            match after {
                Some(a) => {
                    &&& a.identity_id == b.identity_id
                    &&& a.serial_number == b.serial_number
                    &&& a.email == b.email
                    &&& a.device_owner == b.device_owner
                    &&& a.password_hash == b.password_hash
                    &&& a.created_at == b.created_at
                    &&& opt_is(a.device_name, name)
                },
                None => false,
            }
        } else {
            after == before
        },
        None => after is None,
    }
}

/// Some row has this identity.
pub open spec fn identity_taken(rows: Seq<UserRecord>, identity: Seq<char>) -> bool {
    exists|i: int| 0 <= i < rows.len() && (#[trigger] rows[i]).identity_id@ == identity
}

/// A committed record holds the request's serial number.
pub open spec fn serial_taken(rows: Seq<UserRecord>, req: WLRegister) -> bool {
    keyword_in(rows, WLdbKeyword::SerialNumber(req.serial_number))
}

/// A committed record holds the request's email.
pub open spec fn email_taken(rows: Seq<UserRecord>, req: WLRegister) -> bool {
    keyword_in(rows, WLdbKeyword::Email(req.email))
}

/// A committed record holds the request's username as its owner.
pub open spec fn username_taken(rows: Seq<UserRecord>, req: WLRegister) -> bool {
    keyword_in(rows, WLdbKeyword::DeviceOwner(req.username))
}

/// One of the request's unique fields is already registered.
pub open spec fn any_taken(rows: Seq<UserRecord>, req: WLRegister) -> bool {
    serial_taken(rows, req) || email_taken(rows, req) || username_taken(rows, req)
}

/// `r` is the complete record of a registration of `req` under `identity`.
pub open spec fn registered(r: UserRecord, identity: Seq<char>, req: WLRegister) -> bool {
    &&& r.identity_id@ == identity
    &&& r.serial_number@ == req.serial_number@
    &&& r.email@ == req.email@
    &&& opt_is(r.device_owner, req.username@)
    &&& opt_is(r.device_name, req.device_name@)
    &&& r.password_hash matches Some(h) && argon2_accepts(req.password@, h@)
}

/// The registration steps, and the coordinator that runs them in one
/// transaction.
pub struct Register;

impl Register {
    /// First step: checks the serial number's length and stages the record
    /// of a new identity with its serial number, email and creation time.
    pub fn insert_identity(
        db: &Database,
        tx: &mut Transaction,
        identity_id: String,
        serial_number: &str,
        email: &str,
        created_at: String,
    ) -> (r: Result<String, RegisterError>)
        ensures
            !serial_fits(serial_number@) ==> (r matches Err(RegisterError::Validation)),
            serial_fits(serial_number@) && old(tx).pending() is Some ==> (r matches Err(
                RegisterError::Storage(StoreError::TransactionFull),
            )),
            serial_fits(serial_number@) && old(tx).pending() is None && keys_taken(
                db@,
                identity_id@,
                serial_number@,
                email@,
            ) ==> (r matches Err(RegisterError::Storage(StoreError::Conflict))),
            serial_fits(serial_number@) && old(tx).pending() is None && !keys_taken(
                db@,
                identity_id@,
                serial_number@,
                email@,
            ) ==> r is Ok,
            r matches Ok(id) ==> id@ == identity_id@ && staged_first_step(
                final(tx).pending(),
                identity_id@,
                serial_number@,
                email@,
            ) && final(tx).pending()->Some_0.created_at == created_at,
            r is Err ==> final(tx).pending() == old(tx).pending(),
    {
        if serial_number.unicode_len() > MAX_SERIAL_LEN {
            return Err(RegisterError::Validation);
        }
        let rec = UserRecord {
            identity_id: identity_id.clone(),
            serial_number: serial_number.to_owned(),
            device_name: None,
            device_owner: None,
            email: email.to_owned(),
            password_hash: None,
            created_at,
        };
        proof {
            if keys_taken(db@, identity_id@, serial_number@, email@) {
                let i = choose|i: int|
                    0 <= i < db@.len() && ((#[trigger] db@[i]).identity_id@ == identity_id@
                        || db@[i].serial_number@ == serial_number@ || db@[i].email@ == email@);
                assert(clashes(db@[i], rec));
            }
        }
        match tx.insert(db, rec) {
            Ok(()) => Ok(identity_id),
            Err(e) => Err(RegisterError::Storage(e)),
        }
    }

    /// First step, with a fresh random identity and the current time. Where
    /// the random source or the clock fails, nothing is staged.
    pub fn insert_serial_and_email(
        db: &Database,
        tx: &mut Transaction,
        serial_number: &str,
        email: &str,
    ) -> (r: Result<String, RegisterError>)
        ensures
            !serial_fits(serial_number@) <==> (r matches Err(RegisterError::Validation)),
            serial_fits(serial_number@) && old(tx).pending() is Some ==> (r matches Err(
                RegisterError::Storage(StoreError::TransactionFull),
            )) || (r matches Err(RegisterError::Randomness)) || (r matches Err(
                RegisterError::Clock,
            )),
            serial_fits(serial_number@) && old(tx).pending() is None && contact_taken(
                db@,
                serial_number@,
                email@,
            ) ==> (r matches Err(RegisterError::Storage(StoreError::Conflict))) || (r matches Err(
                RegisterError::Randomness,
            )) || (r matches Err(RegisterError::Clock)),
            serial_fits(serial_number@) && old(tx).pending() is None && !contact_taken(
                db@,
                serial_number@,
                email@,
            ) ==> r is Ok || (r matches Err(RegisterError::Storage(StoreError::Conflict))) || (r matches Err(
                RegisterError::Randomness,
            )) || (r matches Err(RegisterError::Clock)),
            serial_fits(serial_number@) && old(tx).pending() is None && !contact_taken(
                db@,
                serial_number@,
                email@,
            ) && no_uuid_length_ids(db@) ==> r is Ok || (r matches Err(RegisterError::Randomness))
                || (r matches Err(RegisterError::Clock)),
            r matches Ok(id) ==> uuid_v4_text(id@) && staged_first_step(
                final(tx).pending(),
                id@,
                serial_number@,
                email@,
            ) && !keys_taken(db@, id@, serial_number@, email@),
            r is Err ==> final(tx).pending() == old(tx).pending(),
            r matches Err(e) ==> e is Validation || e is Storage || e is Randomness || e is Clock,
    {
        if serial_number.unicode_len() > MAX_SERIAL_LEN {
            return Err(RegisterError::Validation);
        }
        let identity_id = match new_identity_id() {
            Some(id) => id,
            None => return Err(RegisterError::Randomness),
        };
        let created_at = match now_rfc3339() {
            Some(t) => t,
            None => return Err(RegisterError::Clock),
        };
        proof {
            if no_uuid_length_ids(db@) && keys_taken(db@, identity_id@, serial_number@, email@) {
                let i = choose|i: int|
                    0 <= i < db@.len() && ((#[trigger] db@[i]).identity_id@ == identity_id@
                        || db@[i].serial_number@ == serial_number@ || db@[i].email@ == email@);
                if db@[i].identity_id@ != identity_id@ {
                    assert(contact_taken(db@, serial_number@, email@));
                }
            }
        }
        Register::insert_identity(db, tx, identity_id, serial_number, email, created_at)
    }

    /// Second step, given the outcome of hashing the password: sets the
    /// owner's name and the hash on the staged record of this identity.
    pub fn apply_credentials(
        tx: &mut Transaction,
        identity_id: &str,
        username: &str,
        hashed: Result<String, HashingError>,
    ) -> (r: Result<(), RegisterError>)
        ensures
            (hashed matches Err(HashingError::Unhashable)) <==> (r matches Err(RegisterError::Hashing)),
            (hashed matches Err(HashingError::RandomSource)) <==> (r matches Err(
                RegisterError::Randomness,
            )),
            hashed is Err ==> final(tx).pending() == old(tx).pending(),
            hashed matches Ok(h) ==> r is Ok && credentials_applied(
                old(tx).pending(),
                final(tx).pending(),
                identity_id@,
                username@,
                h,
            ),
    {
        match hashed {
            Ok(h) => {
                tx.set_credentials(&identity_id.to_owned(), username.to_owned(), h);
                Ok(())
            },
            Err(HashingError::Unhashable) => Err(RegisterError::Hashing),
            Err(HashingError::RandomSource) => Err(RegisterError::Randomness),
        }
    }

    /// Second step: hashes the password under a fresh salt and stores it,
    /// with the owner's name, on the staged record of this identity. Where
    /// no record of this identity is staged, the unit is left alone.
    pub fn update_username_and_password(
        tx: &mut Transaction,
        identity_id: &str,
        username: &str,
        password: &str,
    ) -> (r: Result<(), RegisterError>)
        ensures
            vstd::utf8::encode_utf8(password@).len() > MAX_PASSWORD_BYTES <==> (r matches Err(
                RegisterError::Hashing,
            )),
            vstd::utf8::encode_utf8(password@).len() <= MAX_PASSWORD_BYTES ==> r is Ok || (r matches Err(
                RegisterError::Randomness,
            )),
            r is Ok ==> credentials_set(
                old(tx).pending(),
                final(tx).pending(),
                identity_id@,
                username@,
                password@,
            ),
            r is Err ==> final(tx).pending() == old(tx).pending(),
    {
        let hashed = hash_password(password);
        let ghost outcome = hashed;
        let r = Register::apply_credentials(tx, identity_id, username, hashed);
        proof {
            if outcome is Ok {
                let h = outcome->Ok_0;
                assert(credentials_applied(
                    old(tx).pending(),
                    tx.pending(),
                    identity_id@,
                    username@,
                    h,
                ));
            }
        }
        r
    }

    /// Third step: sets the device name on the staged record of this
    /// identity.
    pub fn update_device_name(tx: &mut Transaction, identity_id: &str, device_name: &str) -> (r:
        Result<(), RegisterError>)
        ensures
            r is Ok,
            device_name_set(old(tx).pending(), final(tx).pending(), identity_id@, device_name@),
    {
        tx.set_device_name(&identity_id.to_owned(), device_name.to_owned());
        Ok(())
    }
    /// Registers a device and its owner under the given identity, creation
    /// time and salt: pre-checks that the serial number, email and username
    /// are free, then runs the three steps in one transaction and commits it.
    /// On any failure the transaction is rolled back and the table is left as
    /// it was.
    pub fn register_with(
        db: &mut Database,
        req: &WLRegister,
        identity_id: String,
        created_at: String,
        salt: &Vec<u8>,
    ) -> (r: Result<String, RegisterError>)
        requires
            old(db).wf(),
        ensures
            final(db).wf(),
            serial_taken(old(db)@, *req) ==> (r matches Err(
                RegisterError::Conflict(ConflictField::SerialNumber),
            )),
            !serial_taken(old(db)@, *req) && email_taken(old(db)@, *req) ==> (r matches Err(
                RegisterError::Conflict(ConflictField::Email),
            )),
            !serial_taken(old(db)@, *req) && !email_taken(old(db)@, *req) && username_taken(
                old(db)@,
                *req,
            ) ==> (r matches Err(RegisterError::Conflict(ConflictField::Username))),
            !any_taken(old(db)@, *req) && !serial_fits(req.serial_number@) ==> (r matches Err(
                RegisterError::Validation,
            )),
            !any_taken(old(db)@, *req) && serial_fits(req.serial_number@) && identity_taken(
                old(db)@,
                identity_id@,
            ) ==> (r matches Err(RegisterError::Storage(StoreError::Conflict))),
            !any_taken(old(db)@, *req) && serial_fits(req.serial_number@) && !identity_taken(
                old(db)@,
                identity_id@,
            ) && !hashable(req.password@, salt@) ==> (r matches Err(RegisterError::Hashing)),
            !any_taken(old(db)@, *req) && serial_fits(req.serial_number@) && !identity_taken(
                old(db)@,
                identity_id@,
            ) && hashable(req.password@, salt@) ==> r is Ok,
            r is Err ==> final(db)@ == old(db)@,
            r matches Ok(id) ==> {
                &&& id@ == identity_id@
                &&& final(db)@.len() == old(db)@.len() + 1
                &&& final(db)@.drop_last() == old(db)@
                &&& registered(final(db)@.last(), id@, *req)
                &&& final(db)@.last().password_hash matches Some(h) && h@ == phc_hash(
                    req.password@,
                    salt@,
                )
                &&& final(db)@.last().created_at == created_at
            },
    {
        if let Some(field) = Register::first_conflict(db, req) {
            return Err(RegisterError::Conflict(field));
        }
        proof {
            if keys_taken(db@, identity_id@, req.serial_number@, req.email@) {
                let i = choose|i: int|
                    0 <= i < db@.len() && ((#[trigger] db@[i]).identity_id@ == identity_id@
                        || db@[i].serial_number@ == req.serial_number@ || db@[i].email@
                        == req.email@);
                assert(!has_keyword(db@[i], WLdbKeyword::SerialNumber(req.serial_number)));
                assert(!has_keyword(db@[i], WLdbKeyword::Email(req.email)));
                assert(db@[i].identity_id@ == identity_id@);
            }
            if identity_taken(db@, identity_id@) {
                let i = choose|i: int|
                    0 <= i < db@.len() && (#[trigger] db@[i]).identity_id@ == identity_id@;
                assert(keys_taken(db@, identity_id@, req.serial_number@, req.email@));
            }
        }
        let mut tx = db.start_transaction();
        let identity_id = match Register::insert_identity(
            db,
            &mut tx,
            identity_id,
            req.serial_number.as_str(),
            req.email.as_str(),
            created_at,
        ) {
            Ok(id) => id,
            Err(e) => {
                tx.rollback();
                return Err(e);
            },
        };
        let hashed = hash_password_with_salt(req.password.as_str(), salt);
        if let Err(e) = Register::apply_credentials(
            &mut tx,
            identity_id.as_str(),
            req.username.as_str(),
            hashed,
        ) {
            tx.rollback();
            return Err(e);
        }
        if let Err(e) = Register::update_device_name(
            &mut tx,
            identity_id.as_str(),
            req.device_name.as_str(),
        ) {
            tx.rollback();
            return Err(e);
        }
        proof {
            let rec = tx.pending()->Some_0;
            if clashes_any(db@, rec) {
                let i = choose|i: int| 0 <= i < db@.len() && clashes(#[trigger] db@[i], rec);
                assert(keys_taken(db@, identity_id@, req.serial_number@, req.email@)) by {
                    assert(db@[i].identity_id@ == identity_id@ || db@[i].serial_number@
                        == req.serial_number@ || db@[i].email@ == req.email@);
                }
            }
        }
        match db.commit_transaction(tx) {
            Ok(()) => Ok(identity_id),
            Err(e) => Err(RegisterError::Storage(e)),
        }
    }

    /// Registers a device and its owner under a fresh random identity, the
    /// current time and a fresh salt. Every failure leaves the table as it
    /// was.
    pub fn register(db: &mut Database, req: &WLRegister) -> (r: Result<String, RegisterError>)
        requires
            old(db).wf(),
        ensures
            final(db).wf(),
            serial_taken(old(db)@, *req) ==> (r matches Err(
                RegisterError::Conflict(ConflictField::SerialNumber),
            )),
            !serial_taken(old(db)@, *req) && email_taken(old(db)@, *req) ==> (r matches Err(
                RegisterError::Conflict(ConflictField::Email),
            )),
            !serial_taken(old(db)@, *req) && !email_taken(old(db)@, *req) && username_taken(
                old(db)@,
                *req,
            ) ==> (r matches Err(RegisterError::Conflict(ConflictField::Username))),
            !any_taken(old(db)@, *req) && !serial_fits(req.serial_number@) ==> (r matches Err(
                RegisterError::Validation,
            )),
            !any_taken(old(db)@, *req) && serial_fits(req.serial_number@)
                && vstd::utf8::encode_utf8(req.password@).len() <= MAX_PASSWORD_BYTES
                && no_uuid_length_ids(old(db)@) ==> r is Ok || (r matches Err(
                RegisterError::Randomness,
            )) || (r matches Err(RegisterError::Clock)),
            !any_taken(old(db)@, *req) && serial_fits(req.serial_number@)
                && vstd::utf8::encode_utf8(req.password@).len() > MAX_PASSWORD_BYTES ==> (r matches Err(
                RegisterError::Hashing,
            )) || (r matches Err(RegisterError::Storage(StoreError::Conflict))) || (r matches Err(
                RegisterError::Randomness,
            )) || (r matches Err(RegisterError::Clock)),
            !any_taken(old(db)@, *req) && serial_fits(req.serial_number@) ==> r is Ok || (r matches Err(
                RegisterError::Hashing,
            )) || (r matches Err(RegisterError::Storage(StoreError::Conflict))) || (r matches Err(
                RegisterError::Randomness,
            )) || (r matches Err(RegisterError::Clock)),
            r is Err ==> final(db)@ == old(db)@,
            r matches Ok(id) ==> {
                &&& uuid_v4_text(id@)
                &&& final(db)@.len() == old(db)@.len() + 1
                &&& final(db)@.drop_last() == old(db)@
                &&& registered(final(db)@.last(), id@, *req)
            },
    {
        if let Some(field) = Register::first_conflict(db, req) {
            return Err(RegisterError::Conflict(field));
        }
        if req.serial_number.as_str().unicode_len() > MAX_SERIAL_LEN {
            return Err(RegisterError::Validation);
        }
        let identity_id = match new_identity_id() {
            Some(id) => id,
            None => return Err(RegisterError::Randomness),
        };
        let created_at = match now_rfc3339() {
            Some(t) => t,
            None => return Err(RegisterError::Clock),
        };
        let salt = match fresh_salt() {
            Some(s) => s,
            None => return Err(RegisterError::Randomness),
        };
        proof {
            if no_uuid_length_ids(db@) && identity_taken(db@, identity_id@) {
                let i = choose|i: int|
                    0 <= i < db@.len() && (#[trigger] db@[i]).identity_id@ == identity_id@;
                assert(db@[i].identity_id@.len() != 36);
            }
        }
        Register::register_with(db, req, identity_id, created_at, &salt)
    }

    /// The first of serial number, email and username that is already
    /// registered, in that order.
    pub fn first_conflict(db: &Database, req: &WLRegister) -> (r: Option<ConflictField>)
        ensures
            serial_taken(db@, *req) ==> (r matches Some(ConflictField::SerialNumber)),
            !serial_taken(db@, *req) && email_taken(db@, *req) ==> (r matches Some(
                ConflictField::Email,
            )),
            !serial_taken(db@, *req) && !email_taken(db@, *req) && username_taken(db@, *req) ==> (r matches Some(
                ConflictField::Username,
            )),
            !any_taken(db@, *req) ==> r is None,
    {
        if db.keyword_exists(WLdbKeyword::SerialNumber(req.serial_number.clone())) {
            Some(ConflictField::SerialNumber)
        } else if db.keyword_exists(WLdbKeyword::Email(req.email.clone())) {
            Some(ConflictField::Email)
        } else if db.keyword_exists(WLdbKeyword::DeviceOwner(req.username.clone())) {
            Some(ConflictField::Username)
        } else {
            None
        }
    }
}

/// After a successful registration, the row that a lookup by the request's
/// serial number finds holds the request's username as owner and its device
/// name: a lookup exists, and every row with that serial number is the new
/// one.
pub proof fn lemma_registered_device_is_found(
    before: Seq<UserRecord>,
    after: Seq<UserRecord>,
    req: WLRegister,
    identity: Seq<char>,
)
    requires
        unique_rows(after),
        after.len() == before.len() + 1,
        after.drop_last() == before,
        registered(after.last(), identity, req),
    ensures
        keyword_in(after, WLdbKeyword::SerialNumber(req.serial_number)),
        forall|i: int|
            0 <= i < after.len() && (#[trigger] after[i]).serial_number@ == req.serial_number@
                ==> text_or_empty(after[i].device_owner) == req.username@ && text_or_empty(
                after[i].device_name,
            ) == req.device_name@,
{
    let last = after.len() - 1;
    assert(has_keyword(after[last], WLdbKeyword::SerialNumber(req.serial_number)));
    assert forall|i: int|
        0 <= i < after.len() && (#[trigger] after[i]).serial_number@
            == req.serial_number@ implies text_or_empty(after[i].device_owner) == req.username@
        && text_or_empty(after[i].device_name) == req.device_name@ by {
        if i < last {
            assert(!clashes(after[i], after[last]));
        }
    }
}

/// A successful login with the email of a successful registration speaks
/// for the registered identity, and its token expires strictly after it was
/// issued.
pub proof fn lemma_login_speaks_for_registered_identity(
    before: Seq<UserRecord>,
    after: Seq<UserRecord>,
    req: WLRegister,
    identity: Seq<char>,
    resp: LoginResponse,
    i: int,
    issuer: TokenIssuer,
    now: u64,
)
    requires
        unique_rows(after),
        after.len() == before.len() + 1,
        after.drop_last() == before,
        registered(after.last(), identity, req),
        issuer.wf(),
        after[i].email@ == req.email@,
        login_of(resp, after, i, issuer, now),
    ensures
        resp.user_id@ == identity,
        resp.token@ == jwt_hs256(identity, now, (now + issuer.ttl()) as u64, issuer.secret()),
        now < now + issuer.ttl(),
{
    let last = after.len() - 1;
    if i < last {
        assert(!clashes(after[i], after[last]));
    }
}

} // verus!
