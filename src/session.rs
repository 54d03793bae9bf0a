use vstd::prelude::*;

use crate::credentials::{bcrypt_verdict, registered_from, verify_password};
use crate::error::{class_of, from_update_error, store_detail, AuthError, ErrorClass, StoreError};
use crate::token::{
    access_token_for, generate_jwt, generate_refresh_token, refresh_token_for, token_fixes_jti,
    SigningKeys,
    ACCESS_TOKEN_TTL_SECS, LATEST_ISSUE_INSTANT, REFRESH_TOKEN_TTL_SECS,
};
use crate::user::{opt_view, Role, User, UserLogin};

verus! {

/// A freshly issued token pair with its expiration instants (seconds since
/// the epoch).
#[derive(Clone, Debug)]
pub struct Session {
    pub access_token: String,
    pub refresh_token: String,
    pub access_token_expires_at: i64,
    pub refresh_token_expires_at: i64,
}

/// `s` is the pair issued at `now` under the token identifier `jti` for the
/// account with this identifier, name and role.
pub open spec fn issued_session(
    s: Session,
    keys: SigningKeys,
    user_id: Seq<char>,
    username: Seq<char>,
    role: Role,
    now: int,
    jti: Seq<char>,
) -> bool {
    &&& s.access_token@ == access_token_for(keys, user_id, username, role, now, jti)
    &&& s.refresh_token@ == refresh_token_for(keys, user_id, username, role, now, jti)
    &&& token_fixes_jti(s.access_token@, jti)
    &&& token_fixes_jti(s.refresh_token@, jti)
    &&& s.access_token_expires_at == now + ACCESS_TOKEN_TTL_SECS
    &&& s.refresh_token_expires_at == now + REFRESH_TOKEN_TTL_SECS
}

/// Both tokens are still valid at `now`, and the access token expires first.
pub open spec fn session_valid_at(s: Session, now: int) -> bool {
    now < s.access_token_expires_at < s.refresh_token_expires_at
}

/// `r` is what issuing a pair for a found account yields: the pair for its
/// identifier, name and role. A record without an identifier is a store
/// fault.
pub open spec fn issue_outcome(
    r: Result<Session, AuthError>,
    keys: SigningKeys,
    u: User,
    now: int,
    jti: Seq<char>,
) -> bool {
    match u.id {
        None => r == Err::<Session, AuthError>(AuthError::MissingIdentifier),
        Some(id) => r matches Ok(s) && issued_session(s, keys, id@, u.username@, u.role, now, jti),
    }
}

/// Issues the access and refresh tokens for an account at `now`, both
/// carrying the token identifier `jti`.
pub fn issue_session(keys: &SigningKeys, user: &User, now: i64, jti: &str) -> (r: Result<
    Session,
    AuthError,
>)
    requires
        now <= LATEST_ISSUE_INSTANT,
    ensures
        issue_outcome(r, *keys, *user, now as int, jti@),
        r matches Ok(s) ==> session_valid_at(s, now as int),
{
    let user_id = match &user.id {
        Some(id) => id,
        None => return Err(AuthError::MissingIdentifier),
    };
    let access_token = generate_jwt(
        keys,
        user_id.as_str(),
        user.username.as_str(),
        &user.role,
        now,
        jti,
    )?;
    let refresh_token = generate_refresh_token(
        keys,
        user_id.as_str(),
        user.username.as_str(),
        &user.role,
        now,
        jti,
    )?;
    Ok(Session {
        access_token,
        refresh_token,
        access_token_expires_at: now + ACCESS_TOKEN_TTL_SECS,
        refresh_token_expires_at: now + REFRESH_TOKEN_TTL_SECS,
    })
}

/// `r` is what logging in yields for the account found by email: an
/// unknown email and a wrong password are refused, a malformed stored hash is
/// an error, and a matching password gets a fresh pair.
pub open spec fn login_outcome(
    r: Result<Session, AuthError>,
    found: Option<User>,
    login: UserLogin,
    keys: SigningKeys,
    now: int,
    jti: Seq<char>,
) -> bool {
    match found {
        None => r == Err::<Session, AuthError>(AuthError::UnknownEmail),
        Some(u) => match bcrypt_verdict(login.password@, u.password@) {
            None => r == Err::<Session, AuthError>(AuthError::PasswordCheckFailed),
            Some(false) => r == Err::<Session, AuthError>(AuthError::InvalidCredentials),
            Some(true) => issue_outcome(r, keys, u, now, jti),
        },
    }
}

/// Logs in the account found by the presented email (`None` when no account
/// has it): the password is checked against the stored hash and, when it
/// matches, a fresh token pair is issued for the store to record.
pub fn login_user(
    found: &Option<User>,
    login: &UserLogin,
    keys: &SigningKeys,
    now: i64,
    jti: &str,
) -> (r: Result<Session, AuthError>)
    requires
        now <= LATEST_ISSUE_INSTANT,
    ensures
        login_outcome(r, *found, *login, *keys, now as int, jti@),
        r matches Ok(s) ==> session_valid_at(s, now as int),
{
    let user = match found {
        Some(u) => u,
        None => return Err(AuthError::UnknownEmail),
    };
    let matches = verify_password(login.password.as_str(), user.password.as_str())?;
    if !matches {
        return Err(AuthError::InvalidCredentials);
    }
    issue_session(keys, user, now, jti)
}

/// `r` is what refreshing yields for the account found by identifier: a
/// missing account is not found, a found one gets a fresh pair.
pub open spec fn refresh_outcome(
    r: Result<Session, AuthError>,
    found: Option<User>,
    keys: SigningKeys,
    now: int,
    jti: Seq<char>,
) -> bool {
    match found {
        None => r == Err::<Session, AuthError>(AuthError::UserNotFound),
        Some(u) => issue_outcome(r, keys, u, now, jti),
    }
}

/// Re-issues the token pair of the account found by identifier (`None` when
/// no account has it), without asking for credentials. Each call is given a
/// fresh token identifier `jti`.
///
/// Known limitation: the identifier alone is trusted; no earlier refresh
/// token is presented or checked before a new pair is issued.
pub fn refresh_user(found: &Option<User>, keys: &SigningKeys, now: i64, jti: &str) -> (r: Result<
    Session,
    AuthError,
>)
    requires
        now <= LATEST_ISSUE_INSTANT,
    ensures
        refresh_outcome(r, *found, *keys, now as int, jti@),
        r matches Ok(s) ==> session_valid_at(s, now as int),
{
    match found {
        Some(u) => issue_session(keys, u, now, jti),
        None => Err(AuthError::UserNotFound),
    }
}

/// Completes a login once the store has recorded the pair: `matched` is the
/// number of records the update matched, or how the store failed (always an
/// internal error with the store's description). No match means the account
/// vanished after it was found.
pub fn finish_login(session: Session, matched: Result<u64, StoreError>) -> (r: Result<
    Session,
    AuthError,
>)
    ensures
        match matched {
            Err(e) => r == Err::<Session, AuthError>(AuthError::StoreFailed(store_detail(e))),
            Ok(n) => if n == 0 {
                r == Err::<Session, AuthError>(AuthError::SessionLost)
            } else {
                r == Ok::<Session, AuthError>(session)
            },
        },
{
    match matched {
        Err(e) => Err(from_update_error(e)),
        Ok(0) => Err(AuthError::SessionLost),
        Ok(_) => Ok(session),
    }
}

/// Completes a refresh once the store has recorded the pair: a store failure
/// is an internal error with the store's description, and no match means
/// that no account has the identifier.
pub fn finish_refresh(session: Session, matched: Result<u64, StoreError>) -> (r: Result<
    Session,
    AuthError,
>)
    ensures
        match matched {
            Err(e) => r == Err::<Session, AuthError>(AuthError::StoreFailed(store_detail(e))),
            Ok(n) => if n == 0 {
                r == Err::<Session, AuthError>(AuthError::UserNotFound)
            } else {
                r == Ok::<Session, AuthError>(session)
            },
        },
{
    match matched {
        Err(e) => Err(from_update_error(e)),
        Ok(0) => Err(AuthError::UserNotFound),
        Ok(_) => Ok(session),
    }
}

impl User {
    /// Replaces the record's token pair and expirations by those of `s`,
    /// leaving every other field as it was.
    pub fn rotate_session(&mut self, s: &Session)
        ensures
            opt_view(final(self).access_token) == Some(s.access_token@),
            opt_view(final(self).refresh_token) == Some(s.refresh_token@),
            final(self).access_token_expires_at == Some(s.access_token_expires_at),
            final(self).refresh_token_expires_at == Some(s.refresh_token_expires_at),
            opt_view(final(self).id) == opt_view(old(self).id),
            final(self).username@ == old(self).username@,
            final(self).email@ == old(self).email@,
            final(self).password@ == old(self).password@,
            final(self).role == old(self).role,
            s.access_token_expires_at <= s.refresh_token_expires_at ==> final(self).well_formed(),
    {
        self.access_token = Some(s.access_token.clone());
        self.refresh_token = Some(s.refresh_token.clone());
        self.access_token_expires_at = Some(s.access_token_expires_at);
        self.refresh_token_expires_at = Some(s.refresh_token_expires_at);
    }
}

/// A login with the right password for a stored account succeeds, and its
/// access token expires after the login instant and before the refresh
/// token does.
pub proof fn lemma_login_expiry_order(
    r: Result<Session, AuthError>,
    u: User,
    login: UserLogin,
    keys: SigningKeys,
    now: int,
    jti: Seq<char>,
)
    requires
        login_outcome(r, Some(u), login, keys, now, jti),
        bcrypt_verdict(login.password@, u.password@) == Some(true),
        u.id is Some,
    ensures
        r is Ok,
        now < r->Ok_0.access_token_expires_at < r->Ok_0.refresh_token_expires_at,
{
}

/// Once an account is registered, logging in to it never fails on the
/// stored hash: the registered password succeeds (given an identifier) and
/// any other password is either accepted by the hash or refused as
/// unauthorized.
pub proof fn lemma_login_after_registration(
    r: Result<Session, AuthError>,
    new_user: User,
    stored: User,
    u: User,
    login: UserLogin,
    keys: SigningKeys,
    now: int,
    jti: Seq<char>,
)
    requires
        registered_from(new_user, stored),
        u.password@ == stored.password@,
        login_outcome(r, Some(u), login, keys, now, jti),
    ensures
        r != Err::<Session, AuthError>(AuthError::PasswordCheckFailed),
        login.password@ == new_user.password@ && u.id is Some ==> r is Ok,
        r is Err && r != Err::<Session, AuthError>(AuthError::MissingIdentifier) ==> r
            == Err::<Session, AuthError>(AuthError::InvalidCredentials),
{
    assert(bcrypt_verdict(login.password@, stored.password@) is Some);
}

/// A login with a wrong password is refused as unauthorized and yields no
/// session, so nothing is written to the account record.
pub proof fn lemma_wrong_password_writes_nothing(
    r: Result<Session, AuthError>,
    u: User,
    login: UserLogin,
    keys: SigningKeys,
    now: int,
    jti: Seq<char>,
)
    requires
        login_outcome(r, Some(u), login, keys, now, jti),
        bcrypt_verdict(login.password@, u.password@) == Some(false),
    ensures
        r == Err::<Session, AuthError>(AuthError::InvalidCredentials),
        class_of(AuthError::InvalidCredentials) == ErrorClass::Unauthorized,
        !(r is Ok),
{
}

/// Refreshing the same account twice, each time under a fresh token
/// identifier, yields two different token pairs, each valid from the
/// instant it was issued (so each rotation keeps the record well formed).
pub proof fn lemma_refresh_rotations_differ(
    r1: Result<Session, AuthError>,
    r2: Result<Session, AuthError>,
    u: User,
    keys: SigningKeys,
    now1: int,
    now2: int,
    jti1: Seq<char>,
    jti2: Seq<char>,
)
    requires
        refresh_outcome(r1, Some(u), keys, now1, jti1),
        refresh_outcome(r2, Some(u), keys, now2, jti2),
        u.id is Some,
        jti1 != jti2,
    ensures
        r1 is Ok,
        r2 is Ok,
        session_valid_at(r1->Ok_0, now1),
        session_valid_at(r2->Ok_0, now2),
        r1->Ok_0.access_token@ != r2->Ok_0.access_token@,
        r1->Ok_0.refresh_token@ != r2->Ok_0.refresh_token@,
{
}

} // verus!
