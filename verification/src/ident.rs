//! The identifier deriver: a deterministic, content-derived identifier
//! for a byte payload, used as the storage key.

use vstd::prelude::*;

verus! {

/// The identifier derived from a byte sequence: a pure function of the
/// bytes alone, with no dependence on process, time, or upload order.
pub uninterp spec fn media_id_of(bytes: Seq<u8>) -> Seq<char>;

/// Relies on `uuid::Uuid::new_v5` (the name-based, SHA-1 identifier of
/// RFC 9562) under the fixed `Uuid::NAMESPACE_OID` namespace, and on
/// uuid's `Display`, which renders the identifier in the 36-character
/// hyphenated form. The result is a function of the input bytes alone.
#[verifier::external_body]
pub(crate) fn derive_media_id(bytes: &Vec<u8>) -> (r: String)
    ensures
        r@ == media_id_of(bytes@),
        r@.len() == 36,
{
    uuid::Uuid::new_v5(&uuid::Uuid::NAMESPACE_OID, bytes.as_slice()).to_string()
}

} // verus!
