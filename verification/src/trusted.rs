//! What the registry takes from the standard library on trust: the two calls
//! below are believed to do what their contracts say, and are not proved.

use vstd::prelude::*;
use vstd::utf8::{encode_utf8, valid_utf8};

verus! {

/// `String::from_utf8`: the string whose UTF-8 encoding is `bytes`, where
/// `bytes` is well-formed UTF-8, and nothing where it is not. The bytes are
/// consumed either way.
#[verifier::external_body]
pub(crate) fn string_from_utf8(bytes: Vec<u8>) -> (text: Option<String>)
    ensures
        text is Some <==> valid_utf8(bytes@),
        text matches Some(s) ==> encode_utf8(s@) == bytes@,
{
    match String::from_utf8(bytes) {
        Ok(s) => Some(s),
        Err(_) => None,
    }
}

/// `Vec::as_ptr`, as an integer: the address at which the storage of `bytes`
/// starts. A vector's pointer is never null, so the address is not zero; which
/// number it is stays the allocator's choice, and nothing more is claimed.
#[verifier::external_body]
pub(crate) fn storage_address(bytes: &Vec<u8>) -> (address: usize)
    ensures
        address != 0,
{
    bytes.as_ptr() as usize
}

} // verus!
