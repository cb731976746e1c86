//! Selectors: the field element that stands for an event's name in its first key.

use vstd::prelude::*;
use vstd::utf8::is_ascii_chars;
use crate::felt::FieldElement;

verus! {

/// The 32 bytes of the selector of a name.
pub uninterp spec fn selector_of(name: Seq<char>) -> Seq<u8>;

/// Calls `starknet::core::utils::get_selector_from_name`: a function of the
/// name alone, which fails on a name that is not ASCII and on no other.
#[verifier::external_body]
pub(crate) fn selector_from_name(name: &str) -> (r: Option<FieldElement>)
    ensures
        r is Some <==> is_ascii_chars(name@),
        r matches Some(selector) ==> selector@ == selector_of(name@),
{
    match starknet::core::utils::get_selector_from_name(name) {
        Ok(f) => Some(FieldElement::from_canonical_bytes(f.to_bytes_be())),
        Err(_) => None,
    }
}

} // verus!
