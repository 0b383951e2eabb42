//! Identifiers. An identifier is a `uuid::Uuid`; what the contracts know of
//! one are its sixteen bytes and its text.

use vstd::prelude::*;
use uuid::Uuid;

verus! {

#[verifier::external_type_specification]
#[verifier::external_body]
pub struct ExUuid(uuid::Uuid);

/// `Uuid::clone` copies the identifier.
pub assume_specification[ <uuid::Uuid as Clone>::clone ](id: &uuid::Uuid) -> (r: uuid::Uuid)
    ensures
        r == *id,
;

/// The sixteen bytes of an identifier, as `Uuid::as_bytes` gives them.
pub uninterp spec fn uuid_bytes(id: Uuid) -> Seq<u8>;

/// The text of an identifier, as `Uuid::to_string` writes it: thirty-two
/// hexadecimal digits in lower case, in five groups between hyphens.
pub uninterp spec fn uuid_text(id: Uuid) -> Seq<char>;

/// Calls `Uuid::as_bytes` and copies the array: the identifier's sixteen bytes.
#[verifier::external_body]
pub(crate) fn id_bytes(id: &Uuid) -> (b: Vec<u8>)
    ensures
        b@ == uuid_bytes(*id),
        b@.len() == 16,
{
    id.as_bytes().to_vec()
}

/// Calls `Uuid::to_string`, which writes the identifier in its hyphenated form.
#[verifier::external_body]
pub(crate) fn id_text(id: &Uuid) -> (s: String)
    ensures
        s@ == uuid_text(*id),
{
    id.to_string()
}

} // verus!
