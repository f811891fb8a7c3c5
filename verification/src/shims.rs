//! Contracts for the few pieces of the standard library that the decoder
//! needs and that vstd leaves unspecified.

use vstd::prelude::*;

verus! {

/// Relies on `String::push`: appends exactly the given character.
pub assume_specification[ String::push ](s: &mut String, c: char)
    ensures
        final (s)@ == old(s)@.push(c),
;

/// Relies on `char::from_u32`, which returns `Some` for every Unicode scalar
/// value; the argument is kept inside that range, so the unwrap cannot fail.
#[verifier::external_body]
pub fn char_of(u: u32) -> (c: char)
    requires
        vstd::utf8::is_scalar(u),
    ensures
        c as u32 == u,
{
    char::from_u32(u).unwrap()
}

/// Relies on `core::str::from_utf8`: succeeds exactly on well-formed UTF-8
/// and then yields the decoded characters, as modelled by `vstd::utf8`.
#[verifier::external_body]
pub fn utf8_to_str(bytes: &[u8]) -> (r: Option<&str>)
    ensures
        r is Some <==> vstd::utf8::valid_utf8(bytes@),
        r matches Some(s) ==> s@ == vstd::utf8::decode_utf8(bytes@),
{
    core::str::from_utf8(bytes).ok()
}

} // verus!
