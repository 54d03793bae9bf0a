use vstd::prelude::*;

use crate::error::{
    creation_failure, from_creation_error, from_update_error, store_detail, AuthError, StoreError,
};
use crate::identifier::{canonical_id, is_object_id_text, parse_user_id};
use crate::user::UpdateUser;

verus! {

/// A profile change ready for the store: which account, and its new name.
#[derive(Clone, Debug)]
pub struct ProfilePatch {
    pub id: String,
    pub username: String,
}

/// Validates the identifier of the account to change and pairs it with the
/// new name. An invalid identifier is a bad request.
pub fn update_user(id: &str, change: &UpdateUser) -> (r: Result<ProfilePatch, AuthError>)
    ensures
        r is Ok <==> is_object_id_text(id@),
        r matches Ok(p) ==> p.id@ == canonical_id(id@) && p.username@ == change.name@,
        r matches Err(e) ==> e == AuthError::InvalidUserId,
{
    let canonical = parse_user_id(id)?;
    Ok(ProfilePatch { id: canonical, username: change.name.clone() })
}

/// Completes a profile change once the store has applied it: `matched` is
/// the number of records the update matched, or how the store failed. Every
/// store failure here is an internal error with the store's description.
pub fn finish_update(matched: Result<u64, StoreError>) -> (r: Result<(), AuthError>)
    ensures
        match matched {
            Err(e) => r == Err::<(), AuthError>(AuthError::StoreFailed(store_detail(e))),
            Ok(n) => if n == 0 {
                r == Err::<(), AuthError>(AuthError::UserNotFound)
            } else {
                r == Ok::<(), AuthError>(())
            },
        },
{
    match matched {
        Err(e) => Err(from_update_error(e)),
        Ok(0) => Err(AuthError::UserNotFound),
        Ok(_) => Ok(()),
    }
}

/// Completes a registration once the store has inserted the record:
/// `inserted` is the identifier it assigned, or how it failed; a taken
/// unique field is a conflict.
pub fn finish_register(inserted: Result<String, StoreError>) -> (r: Result<String, AuthError>)
    ensures
        match inserted {
            Err(e) => r == Err::<String, AuthError>(creation_failure(e)),
            Ok(id) => r matches Ok(i) && i@ == id@,
        },
{
    match inserted {
        Err(e) => Err(from_creation_error(e)),
        Ok(id) => Ok(id),
    }
}

} // verus!
