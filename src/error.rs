use vstd::prelude::*;

verus! {

/// Why a request failed.
#[derive(Clone, Debug)]
pub enum AuthError {
    /// The identifier is not in the store's identifier form.
    InvalidUserId,
    /// Login named an email that no account has.
    UnknownEmail,
    /// The password does not match the stored hash.
    InvalidCredentials,
    /// No account has the identifier.
    UserNotFound,
    /// A unique field of the account is already taken.
    DuplicateAccount,
    /// The remote account service could not be reached or did not answer.
    UpstreamUnavailable,
    /// Hashing the password failed.
    PasswordHashFailed,
    /// The stored hash could not be checked (it is malformed).
    PasswordCheckFailed,
    /// Signing the access token failed.
    AccessTokenFailed,
    /// Signing the refresh token failed.
    RefreshTokenFailed,
    /// The store reported an error, with its description.
    StoreFailed(String),
    /// The account disappeared between being found and its session being written.
    SessionLost,
    /// The store returned an account record without an identifier.
    MissingIdentifier,
}

impl PartialEq for AuthError {
    fn eq(&self, o: &AuthError) -> (r: bool) {
        match (self, o) {
            (AuthError::InvalidUserId, AuthError::InvalidUserId) => true,
            (AuthError::UnknownEmail, AuthError::UnknownEmail) => true,
            (AuthError::InvalidCredentials, AuthError::InvalidCredentials) => true,
            (AuthError::UserNotFound, AuthError::UserNotFound) => true,
            (AuthError::DuplicateAccount, AuthError::DuplicateAccount) => true,
            (AuthError::UpstreamUnavailable, AuthError::UpstreamUnavailable) => true,
            (AuthError::PasswordHashFailed, AuthError::PasswordHashFailed) => true,
            (AuthError::PasswordCheckFailed, AuthError::PasswordCheckFailed) => true,
            (AuthError::AccessTokenFailed, AuthError::AccessTokenFailed) => true,
            (AuthError::RefreshTokenFailed, AuthError::RefreshTokenFailed) => true,
            (AuthError::StoreFailed(a), AuthError::StoreFailed(b)) => a.eq(b),
            (AuthError::SessionLost, AuthError::SessionLost) => true,
            (AuthError::MissingIdentifier, AuthError::MissingIdentifier) => true,
            _ => false,
        }
    }
}

impl vstd::std_specs::cmp::PartialEqSpecImpl for AuthError {
    open spec fn obeys_eq_spec() -> bool {
        true
    }

    open spec fn eq_spec(&self, o: &AuthError) -> bool {
        match (*self, *o) {
            (AuthError::StoreFailed(a), AuthError::StoreFailed(b)) => a@ == b@,
            (AuthError::StoreFailed(_), _) => false,
            (_, AuthError::StoreFailed(_)) => false,
            _ => *self == *o,
        }
    }
}

/// The class of a failure, as the request boundary reports it.
#[derive(Clone, Copy, Debug, PartialEq, Eq, Structural)]
pub enum ErrorClass {
    BadRequest,
    Unauthorized,
    NotFound,
    Conflict,
    UpstreamUnavailable,
    InternalError,
}

pub open spec fn class_of(e: AuthError) -> ErrorClass {
    match e {
        AuthError::InvalidUserId => ErrorClass::BadRequest,
        AuthError::UnknownEmail => ErrorClass::Unauthorized,
        AuthError::InvalidCredentials => ErrorClass::Unauthorized,
        AuthError::UserNotFound => ErrorClass::NotFound,
        AuthError::DuplicateAccount => ErrorClass::Conflict,
        AuthError::UpstreamUnavailable => ErrorClass::UpstreamUnavailable,
        _ => ErrorClass::InternalError,
    }
}

pub open spec fn status_of(c: ErrorClass) -> u16 {
    match c {
        ErrorClass::BadRequest => 400,
        ErrorClass::Unauthorized => 401,
        ErrorClass::NotFound => 404,
        ErrorClass::Conflict => 409,
        ErrorClass::UpstreamUnavailable => 503,
        ErrorClass::InternalError => 500,
    }
}

/// The response text of a failure; a store failure reports the store's own
/// description.
pub open spec fn message_of(e: AuthError) -> Seq<char> {
    match e {
        AuthError::InvalidUserId => "Invalid user ID"@,
        AuthError::UnknownEmail => "User not found"@,
        AuthError::InvalidCredentials => "Invalid credentials"@,
        AuthError::UserNotFound => "User not found"@,
        AuthError::DuplicateAccount => "User already exists"@,
        AuthError::UpstreamUnavailable => "Account service unavailable"@,
        AuthError::PasswordHashFailed => "Failed to hash the password"@,
        AuthError::PasswordCheckFailed => "Error verifying password"@,
        AuthError::AccessTokenFailed => "Error generating access token"@,
        AuthError::RefreshTokenFailed => "Error generating refresh token"@,
        AuthError::StoreFailed(detail) => detail@,
        AuthError::SessionLost => "User disappeared before the session was stored"@,
        AuthError::MissingIdentifier => "Stored user has no identifier"@,
    }
}

impl AuthError {
    /// The class of this failure.
    pub fn class(&self) -> (r: ErrorClass)
        ensures
            r == class_of(*self),
    {
        match self {
            AuthError::InvalidUserId => ErrorClass::BadRequest,
            AuthError::UnknownEmail => ErrorClass::Unauthorized,
            AuthError::InvalidCredentials => ErrorClass::Unauthorized,
            AuthError::UserNotFound => ErrorClass::NotFound,
            AuthError::DuplicateAccount => ErrorClass::Conflict,
            AuthError::UpstreamUnavailable => ErrorClass::UpstreamUnavailable,
            _ => ErrorClass::InternalError,
        }
    }

    /// The HTTP status code of this failure.
    pub fn status(&self) -> (r: u16)
        ensures
            r == status_of(class_of(*self)),
    {
        match self.class() {
            ErrorClass::BadRequest => 400,
            ErrorClass::Unauthorized => 401,
            ErrorClass::NotFound => 404,
            ErrorClass::Conflict => 409,
            ErrorClass::UpstreamUnavailable => 503,
            ErrorClass::InternalError => 500,
        }
    }

    /// A human-readable message for the response body.
    pub fn message(&self) -> (r: String)
        ensures
            r@ == message_of(*self),
    {
        match self {
            AuthError::InvalidUserId => "Invalid user ID".to_owned(),
            AuthError::UnknownEmail => "User not found".to_owned(),
            AuthError::InvalidCredentials => "Invalid credentials".to_owned(),
            AuthError::UserNotFound => "User not found".to_owned(),
            AuthError::DuplicateAccount => "User already exists".to_owned(),
            AuthError::UpstreamUnavailable => "Account service unavailable".to_owned(),
            AuthError::PasswordHashFailed => "Failed to hash the password".to_owned(),
            AuthError::PasswordCheckFailed => "Error verifying password".to_owned(),
            AuthError::AccessTokenFailed => "Error generating access token".to_owned(),
            AuthError::RefreshTokenFailed => "Error generating refresh token".to_owned(),
            AuthError::StoreFailed(detail) => detail.clone(),
            AuthError::SessionLost => "User disappeared before the session was stored".to_owned(),
            AuthError::MissingIdentifier => "Stored user has no identifier".to_owned(),
        }
    }
}

/// How a store operation failed, as the caller that ran it reports it.
#[derive(Clone, Debug)]
pub enum StoreError {
    /// A unique index refused the write, with the store's description.
    DuplicateKey(String),
    /// Any other failure, with the store's description.
    Other(String),
}

/// The store's own description of a failure.
pub open spec fn store_detail(e: StoreError) -> String {
    match e {
        StoreError::DuplicateKey(detail) => detail,
        StoreError::Other(detail) => detail,
    }
}

/// The failure a store error on creating an account becomes: a taken
/// unique field is a conflict, anything else an internal error.
pub open spec fn creation_failure(e: StoreError) -> AuthError {
    match e {
        StoreError::DuplicateKey(_) => AuthError::DuplicateAccount,
        StoreError::Other(detail) => AuthError::StoreFailed(detail),
    }
}

/// Turns a store error on creating an account into the failure reported
/// for it.
pub fn from_creation_error(e: StoreError) -> (r: AuthError)
    ensures
        r == creation_failure(e),
{
    match e {
        StoreError::DuplicateKey(_) => AuthError::DuplicateAccount,
        StoreError::Other(detail) => AuthError::StoreFailed(detail),
    }
}

/// Turns a store error on changing an existing account into an internal
/// error that carries the store's description, whatever its kind.
pub fn from_update_error(e: StoreError) -> (r: AuthError)
    ensures
        r == AuthError::StoreFailed(store_detail(e)),
{
    match e {
        StoreError::DuplicateKey(detail) => AuthError::StoreFailed(detail),
        StoreError::Other(detail) => AuthError::StoreFailed(detail),
    }
}

} // verus!
