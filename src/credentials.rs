use vstd::prelude::*;

use argon2::password_hash::rand_core::{OsRng, RngCore};
use argon2::password_hash::{PasswordHash, PasswordHasher, PasswordVerifier, SaltString};
use argon2::Argon2;

use crate::b64::{b64_unpadded, lemma_b64_injective, lemma_b64_len};

verus! {

/// Length of a freshly drawn salt, in bytes.
pub const SALT_LEN: usize = 16;

/// Fewest salt bytes the hasher takes.
pub const MIN_SALT_BYTES: usize = 8;

/// Most salt bytes whose encoding fits the hash string's salt field.
pub const MAX_SALT_BYTES: usize = 48;

/// Longest password the hasher takes, in bytes.
pub const MAX_PASSWORD_BYTES: u64 = 0xFFFF_FFFF;

/// The algorithm, version and default parameters that open every hash
/// string this library writes.
pub open spec fn argon2_prefix() -> Seq<char> {
    "$argon2id$v=19$m=19456,t=2,p=1$"@
}

/// Whether Argon2 with default settings accepts `password` against the
/// encoded hash string `encoded`.
pub uninterp spec fn argon2_accepts(password: Seq<char>, encoded: Seq<char>) -> bool;

/// The B64 digest field that Argon2 with default settings computes from
/// `password` and the salt bytes `salt`.
pub uninterp spec fn argon2_digest(password: Seq<char>, salt: Seq<u8>) -> Seq<char>;

/// The hash string of `password` under `salt`: algorithm and parameters,
/// the salt, and the digest.
pub open spec fn phc_hash(password: Seq<char>, salt: Seq<u8>) -> Seq<char> {
    argon2_prefix() + b64_unpadded(salt) + "$"@ + argon2_digest(password, salt)
}

/// Hashing succeeds: the salt's length is in range and the password fits.
pub open spec fn hashable(password: Seq<char>, salt: Seq<u8>) -> bool {
    &&& MIN_SALT_BYTES <= salt.len() <= MAX_SALT_BYTES
    &&& vstd::utf8::encode_utf8(password).len() <= MAX_PASSWORD_BYTES
}

/// Why no hash was produced.
#[derive(Debug, Clone, Copy)]
pub enum HashingError {
    /// The password or the salt is outside what the hasher takes.
    Unhashable,
    /// The operating system's random source failed to give a salt.
    RandomSource,
}

/// Relies on `OsRng::try_fill_bytes`: `len` bytes from the operating
/// system's random source, or nothing where that source fails.
#[verifier::external_body]
pub(crate) fn random_bytes(len: usize) -> (r: Option<Vec<u8>>)
    ensures
        r matches Some(b) ==> b@.len() == len,
{
    let mut bytes = vec![0u8; len];
    match OsRng.try_fill_bytes(&mut bytes) {
        Ok(()) => Some(bytes),
        Err(_) => None,
    }
}

/// Relies on `SaltString::encode_b64` and `Argon2::default().hash_password`
/// with its `Display`: the string `$argon2id$v=19$m=19456,t=2,p=1$`, the
/// salt in standard unpadded Base64 (`Encoding::B64`), `$`, the digest in
/// B64. Errors come only from a salt shorter
/// than 8 bytes or too long to encode, or a password over `u32::MAX` bytes.
/// `verify_password` accepts the result for the same password, since it
/// recomputes the digest with the salt and parameters the string holds.
#[verifier::external_body]
fn argon2_hash(password: &str, salt: &Vec<u8>) -> (r: Result<String, HashingError>)
    requires
        MIN_SALT_BYTES <= salt@.len(),
    ensures
        hashable(password@, salt@) ==> r is Ok,
        r matches Ok(h) ==> h@ == argon2_prefix() + b64_unpadded(salt@) + "$"@ + argon2_digest(
            password@,
            salt@,
        ),
        r matches Ok(h) ==> argon2_accepts(password@, h@),
{
    let salt = match SaltString::encode_b64(salt) {
        Ok(s) => s,
        Err(_) => return Err(HashingError::Unhashable),
    };
    match Argon2::default().hash_password(password.as_bytes(), &salt) {
        Ok(h) => Ok(h.to_string()),
        Err(_) => Err(HashingError::Unhashable),
    }
}

/// Relies on `PasswordHash::new` and `Argon2::default().verify_password`:
/// a parse failure and a mismatch both come out as `false`.
#[verifier::external_body]
fn argon2_verify(password: &str, encoded: &str) -> (r: bool)
    ensures
        r == argon2_accepts(password@, encoded@),
{
    match PasswordHash::new(encoded) {
        Ok(parsed) => Argon2::default().verify_password(password.as_bytes(), &parsed).is_ok(),
        Err(_) => false,
    }
}

/// A fresh random salt; nothing where the random source fails.
pub fn fresh_salt() -> (r: Option<Vec<u8>>)
    ensures
        r matches Some(s) ==> s@.len() == SALT_LEN,
{
    random_bytes(SALT_LEN)
}

/// The password fits the hasher.
pub fn password_fits(password: &str) -> (r: bool)
    ensures
        r == (vstd::utf8::encode_utf8(password@).len() <= MAX_PASSWORD_BYTES),
{
    let bytes = password.as_bytes();
    assert(bytes@ == vstd::utf8::encode_utf8(password@));
    bytes.len() as u64 <= MAX_PASSWORD_BYTES
}

/// Derives the one-way hash of `password` under `salt`, as a
/// self-describing string that holds the algorithm's parameters, the salt
/// and the digest. The result depends on the password and the salt alone.
pub fn hash_password_with_salt(password: &str, salt: &Vec<u8>) -> (r: Result<String, HashingError>)
    ensures
        hashable(password@, salt@) <==> r is Ok,
        r is Err ==> (r matches Err(HashingError::Unhashable)),
        r matches Ok(h) ==> h@ == phc_hash(password@, salt@) && argon2_accepts(password@, h@),
{
    if salt.len() < MIN_SALT_BYTES || salt.len() > MAX_SALT_BYTES || !password_fits(password) {
        return Err(HashingError::Unhashable);
    }
    argon2_hash(password, salt)
}

/// Derives a salted one-way hash of `password` under a fresh random salt.
/// The password verifies against the result.
pub fn hash_password(password: &str) -> (r: Result<String, HashingError>)
    ensures
        vstd::utf8::encode_utf8(password@).len() <= MAX_PASSWORD_BYTES <==> !(r matches Err(
            HashingError::Unhashable,
        )),
        vstd::utf8::encode_utf8(password@).len() <= MAX_PASSWORD_BYTES ==> r is Ok || (r matches Err(
            HashingError::RandomSource,
        )),
        r matches Ok(h) ==> argon2_accepts(password@, h@) && exists|salt: Seq<u8>|
            salt.len() == SALT_LEN && h@ == #[trigger] phc_hash(password@, salt),
{
    if !password_fits(password) {
        return Err(HashingError::Unhashable);
    }
    match fresh_salt() {
        Some(salt) => hash_password_with_salt(password, &salt),
        None => Err(HashingError::RandomSource),
    }
}

/// Whether `password` matches the stored hash. A malformed hash is a
/// mismatch, not an error.
pub fn verify_password(password: &str, encoded: &str) -> (r: bool)
    ensures
        r == argon2_accepts(password@, encoded@),
{
    argon2_verify(password, encoded)
}

/// A hash string carries its salt: under salts of one length, two different
/// salts give two different hash strings for the same password.
pub proof fn lemma_distinct_salts_give_distinct_hashes(password: Seq<char>, s1: Seq<u8>, s2: Seq<u8>)
    requires
        s1.len() == s2.len(),
        s1 != s2,
    ensures
        phc_hash(password, s1) != phc_hash(password, s2),
{
    let p = argon2_prefix();
    let b1 = b64_unpadded(s1);
    let b2 = b64_unpadded(s2);
    lemma_b64_len(s1, s2);
    let h1 = phc_hash(password, s1);
    let h2 = phc_hash(password, s2);
    if h1 == h2 {
        assert(h1.subrange(p.len() as int, (p.len() + b1.len()) as int) =~= b1);
        assert(h2.subrange(p.len() as int, (p.len() + b2.len()) as int) =~= b2);
        lemma_b64_injective(s1, s2);
    }
}

} // verus!
