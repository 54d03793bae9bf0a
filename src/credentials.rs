use vstd::prelude::*;

use crate::error::AuthError;
use crate::user::User;

verus! {

#[verifier::external_type_specification]
#[verifier::external_body]
pub struct ExBcryptError(bcrypt::BcryptError);

/// What bcrypt's `verify` answers for a password and a stored hash: `None`
/// where the hash is malformed, else whether the password matches it.
pub uninterp spec fn bcrypt_verdict(password: Seq<char>, hash: Seq<char>) -> Option<bool>;

/// The shape of every hash bcrypt produces at the default cost:
/// `$2b$12$` followed by 53 characters of salt and digest.
pub open spec fn is_bcrypt_text(h: Seq<char>) -> bool {
    &&& h.len() == 60
    &&& h[0] == '$'
    &&& h[1] == '2'
    &&& h[2] == 'b'
    &&& h[3] == '$'
    &&& h[4] == '1'
    &&& h[5] == '2'
    &&& h[6] == '$'
}

/// Relies on `bcrypt::verify`: it splits the hash into cost, salt and digest,
/// fails on a malformed hash, and else compares digests.
#[verifier::external_body]
fn bcrypt_verify(password: &str, hash: &str) -> (r: Result<bool, bcrypt::BcryptError>)
    ensures
        r is Ok <==> bcrypt_verdict(password@, hash@) is Some,
        r matches Ok(b) ==> bcrypt_verdict(password@, hash@) == Some(b),
{
    bcrypt::verify(password, hash)
}

/// Relies on `bcrypt::hash` at `DEFAULT_COST` (12): it draws a random salt and
/// formats `$2b$12$<salt><digest>`, which `bcrypt::verify` accepts for the same
/// password and, being well formed, checks without error for every password.
#[verifier::external_body]
fn bcrypt_hash(password: &str) -> (r: Result<String, bcrypt::BcryptError>)
    ensures
        r matches Ok(h) ==> is_bcrypt_text(h@) && bcrypt_verdict(password@, h@) == Some(true),
        r matches Ok(h) ==> forall|q: Seq<char>| (#[trigger] bcrypt_verdict(q, h@)) is Some,
{
    bcrypt::hash(password, bcrypt::DEFAULT_COST)
}

/// Hashes a plaintext password with a randomized, slow, irreversible hash.
pub fn hash_password(password: &str) -> (r: Result<String, AuthError>)
    ensures
        r matches Ok(h) ==> is_bcrypt_text(h@) && bcrypt_verdict(password@, h@) == Some(true),
        r matches Ok(h) ==> forall|q: Seq<char>| (#[trigger] bcrypt_verdict(q, h@)) is Some,
        r matches Err(e) ==> e == AuthError::PasswordHashFailed,
{
    match bcrypt_hash(password) {
        Ok(h) => Ok(h),
        Err(_) => Err(AuthError::PasswordHashFailed),
    }
}

/// Checks a plaintext password against a stored hash. A malformed hash is an
/// error, distinct from a mismatch.
pub fn verify_password(password: &str, hash: &str) -> (r: Result<bool, AuthError>)
    ensures
        match bcrypt_verdict(password@, hash@) {
            Some(b) => r == Ok::<bool, AuthError>(b),
            None => r == Err::<bool, AuthError>(AuthError::PasswordCheckFailed),
        },
{
    match bcrypt_verify(password, hash) {
        Ok(b) => Ok(b),
        Err(_) => Err(AuthError::PasswordCheckFailed),
    }
}

/// `stored` is the record that registering `new_user` persists: the same
/// name, email and role, a bcrypt hash of the password, no identifier yet
/// and no session.
pub open spec fn registered_from(new_user: User, stored: User) -> bool {
    &&& stored.id is None
    &&& stored.username@ == new_user.username@
    &&& stored.email@ == new_user.email@
    &&& stored.role == new_user.role
    &&& is_bcrypt_text(stored.password@)
    &&& bcrypt_verdict(new_user.password@, stored.password@) == Some(true)
    &&& forall|q: Seq<char>| (#[trigger] bcrypt_verdict(q, stored.password@)) is Some
    &&& stored.has_no_session()
}

/// The record to store for a new account once its password is hashed: the
/// same name, email and role, the hash in place of the password, no
/// identifier yet and no session.
pub fn stored_record(new_user: &User, hashed: String) -> (r: User)
    ensures
        r.id is None,
        r.username@ == new_user.username@,
        r.email@ == new_user.email@,
        r.role == new_user.role,
        r.password@ == hashed@,
        r.has_no_session(),
        r.well_formed(),
{
    User {
        id: None,
        username: new_user.username.clone(),
        email: new_user.email.clone(),
        password: hashed,
        role: new_user.role,
        access_token: None,
        refresh_token: None,
        access_token_expires_at: None,
        refresh_token_expires_at: None,
    }
}

/// Prepares a new account for storage: the password is replaced by its hash
/// and no session is carried over. A failure to hash fails the registration.
pub fn register_user(new_user: &User) -> (r: Result<User, AuthError>)
    ensures
        r matches Ok(stored) ==> registered_from(*new_user, stored) && stored.well_formed(),
        r matches Err(e) ==> e == AuthError::PasswordHashFailed,
{
    let hashed = hash_password(new_user.password.as_str())?;
    Ok(stored_record(new_user, hashed))
}

/// A registration never stores the submitted secret: the stored hash is
/// accepted for the plaintext and differs from it, for every plaintext that
/// is not itself shaped like a bcrypt hash.
pub proof fn lemma_registration_hides_secret(new_user: User, stored: User)
    requires
        registered_from(new_user, stored),
        !is_bcrypt_text(new_user.password@),
    ensures
        stored.password@ != new_user.password@,
        bcrypt_verdict(new_user.password@, stored.password@) == Some(true),
{
}

} // verus!
