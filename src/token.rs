use vstd::prelude::*;

use crate::error::AuthError;
use crate::user::{role_name, Role};

verus! {

#[verifier::external_type_specification]
#[verifier::external_body]
pub struct ExJwtError(jsonwebtoken::errors::Error);

/// Lifetime of an access token, in seconds (fifteen minutes).
pub const ACCESS_TOKEN_TTL_SECS: i64 = 900;

/// Lifetime of a refresh token, in seconds (seven days).
pub const REFRESH_TOKEN_TTL_SECS: i64 = 604800;

/// The latest issuing instant whose refresh expiration still fits an `i64`.
pub const LATEST_ISSUE_INSTANT: i64 = i64::MAX - REFRESH_TOKEN_TTL_SECS;

/// The HS256-signed JSON Web Token whose claims are `sub`, `username`,
/// `role`, `exp` and `jti`, signed with `secret`.
pub uninterp spec fn hs256_token(
    sub: Seq<char>,
    username: Seq<char>,
    role: Seq<char>,
    exp: int,
    secret: Seq<u8>,
    jti: Seq<char>,
) -> Seq<char>;

/// No token signed over another token identifier (`jti` claim) is `t`: the
/// claims are carried verbatim, encoded, inside the token.
pub open spec fn token_fixes_jti(t: Seq<char>, jti: Seq<char>) -> bool {
    forall|sub: Seq<char>, username: Seq<char>, role: Seq<char>, exp: int, secret: Seq<u8>, other: Seq<char>|
        other != jti ==> #[trigger] hs256_token(sub, username, role, exp, secret, other) != t
}

/// Relies on `jsonwebtoken::encode` with the default header (HS256) and an
/// HMAC key from `EncodingKey::from_secret`. The key family matches the
/// algorithm and a map of strings and an integer always serializes, so it
/// succeeds; the token is `header.claims.signature`, each part base64url
/// encoded, so it depends on the claims and the secret alone and its claims
/// part differs for every other `jti`.
#[verifier::external_body]
fn sign_claims(sub: &str, username: &str, role: &str, exp: i64, secret: &[u8], jti: &str) -> (r:
    Result<String, jsonwebtoken::errors::Error>)
    ensures
        r is Ok,
        r matches Ok(t) ==> t@ == hs256_token(sub@, username@, role@, exp as int, secret@, jti@),
        r matches Ok(t) ==> token_fixes_jti(t@, jti@),
{
    let mut claims = serde_json::Map::new();
    claims.insert("username".to_string(), serde_json::Value::from(username));
    claims.insert("sub".to_string(), serde_json::Value::from(sub));
    claims.insert("role".to_string(), serde_json::Value::from(role));
    claims.insert("exp".to_string(), serde_json::Value::from(exp));
    claims.insert("jti".to_string(), serde_json::Value::from(jti));
    let key = jsonwebtoken::EncodingKey::from_secret(secret);
    jsonwebtoken::encode(&jsonwebtoken::Header::default(), &claims, &key)
}

/// The two signing secrets, one per token kind. They differ, so that one
/// cannot be used to forge tokens of the other kind.
pub struct SigningKeys {
    access_secret: Vec<u8>,
    refresh_secret: Vec<u8>,
}

fn bytes_equal(a: &Vec<u8>, b: &Vec<u8>) -> (r: bool)
    ensures
        r == (a@ == b@),
{
    if a.len() != b.len() {
        return false;
    }
    let mut i: usize = 0;
    while i < a.len()
        invariant
            a@.len() == b@.len(),
            i <= a@.len(),
            forall|j: int| 0 <= j < i ==> a@[j] == b@[j],
        decreases a@.len() - i,
    {
        if a[i] != b[i] {
            return false;
        }
        i = i + 1;
    }
    assert(a@ =~= b@);
    true
}

impl SigningKeys {
    pub closed spec fn access_secret(&self) -> Seq<u8> {
        self.access_secret@
    }

    pub closed spec fn refresh_secret(&self) -> Seq<u8> {
        self.refresh_secret@
    }

    /// The secrets are distinct.
    pub open spec fn well_formed(&self) -> bool {
        self.access_secret() != self.refresh_secret()
    }

    /// Builds the key set; `None` when both secrets are the same.
    pub fn new(access_secret: Vec<u8>, refresh_secret: Vec<u8>) -> (r: Option<SigningKeys>)
        ensures
            r is Some <==> access_secret@ != refresh_secret@,
            r matches Some(k) ==> k.access_secret() == access_secret@ && k.refresh_secret()
                == refresh_secret@ && k.well_formed(),
    {
        if bytes_equal(&access_secret, &refresh_secret) {
            None
        } else {
            Some(SigningKeys { access_secret, refresh_secret })
        }
    }
}

/// The access token for an account, issued at `now` under the token
/// identifier `jti`.
pub open spec fn access_token_for(
    keys: SigningKeys,
    user_id: Seq<char>,
    username: Seq<char>,
    role: Role,
    now: int,
    jti: Seq<char>,
) -> Seq<char> {
    hs256_token(
        user_id,
        username,
        role_name(role),
        now + ACCESS_TOKEN_TTL_SECS,
        keys.access_secret(),
        jti,
    )
}

/// The refresh token for an account, issued at `now` under the token
/// identifier `jti`.
pub open spec fn refresh_token_for(
    keys: SigningKeys,
    user_id: Seq<char>,
    username: Seq<char>,
    role: Role,
    now: int,
    jti: Seq<char>,
) -> Seq<char> {
    hs256_token(
        user_id,
        username,
        role_name(role),
        now + REFRESH_TOKEN_TTL_SECS,
        keys.refresh_secret(),
        jti,
    )
}

/// Issues a short-lived access token carrying the account's identifier,
/// name and role and the token identifier `jti`, signed with the access
/// secret. Signing with an HMAC secret always succeeds.
pub fn generate_jwt(
    keys: &SigningKeys,
    user_id: &str,
    username: &str,
    role: &Role,
    now: i64,
    jti: &str,
) -> (r: Result<String, AuthError>)
    requires
        now <= LATEST_ISSUE_INSTANT,
    ensures
        r matches Ok(t) && t@ == access_token_for(*keys, user_id@, username@, *role, now as int, jti@)
            && token_fixes_jti(t@, jti@),
{
    let exp: i64 = now + ACCESS_TOKEN_TTL_SECS;
    match sign_claims(user_id, username, role.as_str(), exp, keys.access_secret.as_slice(), jti) {
        Ok(t) => Ok(t),
        Err(_) => Err(AuthError::AccessTokenFailed),
    }
}

/// Issues a long-lived refresh token carrying the account's identifier,
/// name and role and the token identifier `jti`, signed with the refresh
/// secret. Signing with an HMAC secret always succeeds.
pub fn generate_refresh_token(
    keys: &SigningKeys,
    user_id: &str,
    username: &str,
    role: &Role,
    now: i64,
    jti: &str,
) -> (r: Result<String, AuthError>)
    requires
        now <= LATEST_ISSUE_INSTANT,
    ensures
        r matches Ok(t) && t@ == refresh_token_for(*keys, user_id@, username@, *role, now as int, jti@)
            && token_fixes_jti(t@, jti@),
{
    let exp: i64 = now + REFRESH_TOKEN_TTL_SECS;
    match sign_claims(user_id, username, role.as_str(), exp, keys.refresh_secret.as_slice(), jti) {
        Ok(t) => Ok(t),
        Err(_) => Err(AuthError::RefreshTokenFailed),
    }
}

} // verus!
