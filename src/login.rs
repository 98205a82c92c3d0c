use vstd::prelude::*;

use crate::credentials::{argon2_accepts, verify_password};
use crate::models::{LoginRequest, LoginResponse};
use crate::records::{clashes, has_keyword, UserRecord, WLdbKeyword};
use crate::store::Database;
use crate::token::{jwt_hs256, TokenError, TokenIssuer};

verus! {

/// Why a login did not succeed.
#[derive(Debug, Clone, Copy)]
pub enum LoginError {
    /// The email or the password is empty.
    Validation,
    /// No such email, or the wrong password: the two are not told apart.
    InvalidCredentials,
    /// The credentials were right but no token could be issued.
    Token(TokenError),
}

/// Some record has this email and a stored hash that accepts the password.
pub open spec fn credentials_accepted(
    rows: Seq<UserRecord>,
    email: Seq<char>,
    password: Seq<char>,
) -> bool {
    exists|i: int|
        0 <= i < rows.len() && (#[trigger] rows[i]).email@ == email && stored_hash_accepts(
            rows[i],
            password,
        )
}

/// The record's stored hash accepts the password.
pub open spec fn stored_hash_accepts(r: UserRecord, password: Seq<char>) -> bool {
    match r.password_hash {
        Some(h) => argon2_accepts(password, h@),
        None => false,
    }
}

/// The response is the successful login of the record at `i`, with a token
/// issued at `now`.
pub open spec fn login_of(
    resp: LoginResponse,
    rows: Seq<UserRecord>,
    i: int,
    issuer: TokenIssuer,
    now: u64,
) -> bool {
    &&& 0 <= i < rows.len()
    &&& resp.user_id@ == rows[i].identity_id@
    &&& now as int + issuer.ttl() <= u64::MAX
    &&& resp.token@ == jwt_hs256(rows[i].identity_id@, now, (now + issuer.ttl()) as u64, issuer.secret())
    &&& resp.token@.len() > 0
    &&& resp.status@ == "success"@
    &&& resp.message@ == "Login successful"@
}

/// Checks the email and password against the table and, where they match,
/// issues a session token for the record's identity at time `now` (seconds
/// since the Unix epoch).
pub fn login(db: &Database, req: &LoginRequest, issuer: &TokenIssuer, now: u64) -> (r: Result<
    LoginResponse,
    LoginError,
>)
    requires
        db.wf(),
        issuer.wf(),
    ensures
        req.email@.len() == 0 || req.password@.len() == 0 <==> (r matches Err(
            LoginError::Validation,
        )),
        req.email@.len() > 0 && req.password@.len() > 0 ==> (!credentials_accepted(
            db@,
            req.email@,
            req.password@,
        ) <==> (r matches Err(LoginError::InvalidCredentials))),
        r matches Err(LoginError::Token(e)) ==> credentials_accepted(db@, req.email@, req.password@)
            && (issuer.secret().len() == 0 <==> e is SecretUnavailable) && (issuer.secret().len()
            > 0 && now as int + issuer.ttl() > u64::MAX ==> e is ExpiryOverflow),
        req.email@.len() > 0 && req.password@.len() > 0 && credentials_accepted(
            db@,
            req.email@,
            req.password@,
        ) && issuer.secret().len() == 0 ==> (r matches Err(
            LoginError::Token(TokenError::SecretUnavailable),
        )),
        req.email@.len() > 0 && req.password@.len() > 0 && credentials_accepted(
            db@,
            req.email@,
            req.password@,
        ) && issuer.secret().len() > 0 && now as int + issuer.ttl() <= u64::MAX ==> r is Ok,
        r matches Ok(resp) ==> credentials_accepted(db@, req.email@, req.password@) && exists|
            i: int,
        |
            0 <= i < db@.len() && (#[trigger] db@[i]).email@ == req.email@ && login_of(
                resp,
                db@,
                i,
                *issuer,
                now,
            ),
{
    if req.email.as_str().is_empty() || req.password.as_str().is_empty() {
        return Err(LoginError::Validation);
    }
    let i = match db.find_by_email(&req.email) {
        Some(i) => i,
        None => {
            proof {
                if credentials_accepted(db@, req.email@, req.password@) {
                    let j = choose|j: int|
                        0 <= j < db@.len() && (#[trigger] db@[j]).email@ == req.email@
                            && stored_hash_accepts(db@[j], req.password@);
                    assert(has_keyword(
                        db@[j],
                        WLdbKeyword::Email(req.email),
                    ));
                }
            }
            return Err(LoginError::InvalidCredentials);
        },
    };
    let rec = db.record(i);
    proof {
        assert forall|j: int| 0 <= j < db@.len() && (#[trigger] db@[j]).email@ == req.email@ implies j
            == i by {
            if j < i {
                assert(!clashes(db@[j], db@[i as int]));
            } else if j > i {
                assert(!clashes(db@[i as int], db@[j]));
            }
        }
    }
    let matches = match &rec.password_hash {
        Some(h) => verify_password(req.password.as_str(), h.as_str()),
        None => false,
    };
    if !matches {
        return Err(LoginError::InvalidCredentials);
    }
    assert(stored_hash_accepts(db@[i as int], req.password@));
    match issuer.issue(&rec.identity_id, now) {
        Ok(token) => Ok(
            LoginResponse {
                status: "success".to_owned(),
                message: "Login successful".to_owned(),
                token,
                user_id: rec.identity_id.clone(),
            },
        ),
        Err(e) => Err(LoginError::Token(e)),
    }
}

} // verus!
