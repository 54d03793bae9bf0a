use vstd::prelude::*;

use crate::error::AuthError;

verus! {

#[verifier::external_type_specification]
#[verifier::external_body]
pub struct ExObjectIdError(mongodb::bson::oid::Error);

pub open spec fn is_hex_digit(c: char) -> bool {
    ('0' <= c && c <= '9') || ('a' <= c && c <= 'f') || ('A' <= c && c <= 'F')
}

/// The external form of a store identifier: exactly 24 hexadecimal digits,
/// in either case.
pub open spec fn is_object_id_text(s: Seq<char>) -> bool {
    s.len() == 24 && forall|i: int| 0 <= i < s.len() ==> is_hex_digit(#[trigger] s[i])
}

pub open spec fn lower_hex_digit(c: char) -> char {
    if c == 'A' {
        'a'
    } else if c == 'B' {
        'b'
    } else if c == 'C' {
        'c'
    } else if c == 'D' {
        'd'
    } else if c == 'E' {
        'e'
    } else if c == 'F' {
        'f'
    } else {
        c
    }
}

/// The canonical (lower-case) form of a well-formed identifier.
pub open spec fn canonical_id(s: Seq<char>) -> Seq<char> {
    Seq::new(s.len(), |i: int| lower_hex_digit(s[i]))
}

/// Relies on bson's `ObjectId::parse_str` (hex-decodes the text and accepts
/// exactly twelve bytes) and `ObjectId::to_hex` (lower-case hex of those bytes).
#[verifier::external_body]
fn parse_object_id(s: &str) -> (r: Result<String, mongodb::bson::oid::Error>)
    ensures
        r is Ok <==> is_object_id_text(s@),
        r matches Ok(h) ==> h@ == canonical_id(s@),
{
    mongodb::bson::oid::ObjectId::parse_str(s).map(|o| o.to_hex())
}

/// Parses an externally supplied account identifier into its canonical form.
pub fn parse_user_id(s: &str) -> (r: Result<String, AuthError>)
    ensures
        r is Ok <==> is_object_id_text(s@),
        r matches Ok(h) ==> h@ == canonical_id(s@),
        r matches Err(e) ==> e == AuthError::InvalidUserId,
{
    match parse_object_id(s) {
        Ok(h) => Ok(h),
        Err(_) => Err(AuthError::InvalidUserId),
    }
}

} // verus!
