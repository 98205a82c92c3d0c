use vstd::prelude::*;

use jsonwebtoken::{EncodingKey, Header};

verus! {

/// Lifetime of a session token when none is configured: one day.
pub const DEFAULT_TOKEN_TTL_SECS: u64 = 86400;

/// The HS256-signed JWT whose claims are `sub`, `iat` and `exp`, signed
/// with `secret`.
pub uninterp spec fn jwt_hs256(sub: Seq<char>, iat: u64, exp: u64, secret: Seq<u8>) -> Seq<char>;

/// The claim set of a session token.
pub struct Claims {
    /// Subject: the identity the token speaks for.
    pub sub: String,
    /// Expiry, in seconds since the Unix epoch.
    pub exp: u64,
    /// Issue time, in seconds since the Unix epoch.
    pub iat: u64,
}

/// Why no token was issued.
#[derive(Debug, Clone, Copy)]
pub enum TokenError {
    /// No signing key is configured.
    SecretUnavailable,
    /// The expiry does not fit in the clock's range.
    ExpiryOverflow,
    /// The signing primitive failed.
    Signing,
}

/// Relies on `jsonwebtoken::encode` with the default header (HS256) and
/// `EncodingKey::from_secret`: the result depends on the claims and the key
/// alone, and joins header, claims and signature with dots, so it is never
/// empty. It cannot fail: the key's family is HMAC as the header's algorithm
/// asks, a map of strings and integers always serialises, and HMAC signing
/// always succeeds.
#[verifier::external_body]
fn jwt_encode(claims: &Claims, secret: &Vec<u8>) -> (r: Result<String, TokenError>)
    ensures
        r matches Ok(t) ==> t@ == jwt_hs256(claims.sub@, claims.iat, claims.exp, secret@)
            && t@.len() > 0,
        r is Ok,
{
    let mut map = serde_json::Map::new();
    map.insert("sub".to_string(), serde_json::Value::from(claims.sub.as_str()));
    map.insert("exp".to_string(), serde_json::Value::from(claims.exp));
    map.insert("iat".to_string(), serde_json::Value::from(claims.iat));
    match jsonwebtoken::encode(&Header::default(), &map, &EncodingKey::from_secret(secret)) {
        Ok(t) => Ok(t),
        Err(_) => Err(TokenError::Signing),
    }
}

/// Signs session tokens with a server-held key and a fixed lifetime.
pub struct TokenIssuer {
    secret: Vec<u8>,
    ttl_secs: u64,
}

impl TokenIssuer {
    pub closed spec fn secret(&self) -> Seq<u8> {
        self.secret@
    }

    pub closed spec fn ttl(&self) -> u64 {
        self.ttl_secs
    }

    /// Tokens live for a positive time.
    pub open spec fn wf(&self) -> bool {
        self.ttl() > 0
    }

    /// An issuer with this key and lifetime; none for a zero lifetime.
    pub fn new(secret: Vec<u8>, ttl_secs: u64) -> (r: Option<TokenIssuer>)
        ensures
            ttl_secs == 0 <==> r is None,
            r matches Some(t) ==> t.wf() && t.secret() == secret@ && t.ttl() == ttl_secs,
    {
        if ttl_secs == 0 {
            None
        } else {
            Some(TokenIssuer { secret, ttl_secs })
        }
    }

    /// The claims of a token for `subject` issued at `now`.
    pub fn claims_for(&self, subject: &String, now: u64) -> (r: Option<Claims>)
        ensures
            r is None <==> now as int + self.ttl() > u64::MAX,
            r matches Some(c) ==> c.sub@ == subject@ && c.iat == now && c.exp == now
                + self.ttl(),
    {
        match now.checked_add(self.ttl_secs) {
            Some(exp) => Some(Claims { sub: subject.clone(), exp, iat: now }),
            None => None,
        }
    }

    /// A signed token for `subject`, issued at `now`.
    pub fn issue(&self, subject: &String, now: u64) -> (r: Result<String, TokenError>)
        ensures
            self.secret().len() == 0 <==> (r matches Err(TokenError::SecretUnavailable)),
            self.secret().len() > 0 && now as int + self.ttl() > u64::MAX ==> (r matches Err(TokenError::ExpiryOverflow)),
            self.secret().len() > 0 && now as int + self.ttl() <= u64::MAX ==> r is Ok,
            r matches Ok(t) ==> self.secret().len() > 0 && now as int + self.ttl() <= u64::MAX
                && t@ == jwt_hs256(subject@, now, (now + self.ttl()) as u64, self.secret())
                && t@.len() > 0,
    {
        if self.secret.len() == 0 {
            return Err(TokenError::SecretUnavailable);
        }
        match self.claims_for(subject, now) {
            None => Err(TokenError::ExpiryOverflow),
            Some(claims) => jwt_encode(&claims, &self.secret),
        }
    }
}

} // verus!
