//! Lengths of text fields, counted in bytes of their UTF-8 form.

use vstd::prelude::*;
use vstd::string::StringSliceAdditionalSpecFns;
use vstd::utf8::encode_utf8;

verus! {

/// The number of bytes that the text takes in UTF-8.
pub open spec fn byte_len(text: Seq<char>) -> nat {
    encode_utf8(text).len()
}

/// The number of bytes of `text`.
pub fn byte_length(text: &String) -> (len: usize)
    ensures
        len == byte_len(text@),
{
    let slice = text.as_str();
    let bytes = slice.as_bytes();
    assert(bytes@ == slice.spec_bytes());
    bytes.len()
}

} // verus!
