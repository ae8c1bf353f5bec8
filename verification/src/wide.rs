//! Trusted boundary to the wide-string encoding of the host's console.
//!
//! The hooked console function receives UTF-16 code units; the command logic
//! works on UTF-8 bytes.  The conversions are done by the `widestring` crate
//! (and the standard library's lossy UTF-8 decoding); each direction's result
//! is a pure function of the input alone and is given a name here, so that
//! every contract downstream can speak of it exactly.

use vstd::prelude::*;

verus! {

/// The UTF-8 bytes that the lossy decoding of a UTF-16 code-unit sequence
/// produces.
pub uninterp spec fn decoded_of(units: Seq<u16>) -> Seq<u8>;

/// The UTF-16 code units that encoding a lossily-decoded byte sequence
/// produces.
pub uninterp spec fn wide_of(bytes: Seq<u8>) -> Seq<u16>;

/// Relies on widestring::U16Str::to_string_lossy (via U16Str::from_slice):
/// the decoded string depends on the code units alone, and an empty slice
/// decodes to an empty string.
#[verifier::external_body]
pub fn decode_wide(units: &Vec<u16>) -> (r: Vec<u8>)
    ensures
        r@ == decoded_of(units@),
        units@.len() == 0 ==> r@.len() == 0,
{
    widestring::U16Str::from_slice(units.as_slice()).to_string_lossy().into_bytes()
}

/// Relies on widestring::U16String::from_str (via the standard library's
/// lossy UTF-8 decoding): the code units depend on the bytes alone, and a
/// non-empty byte sequence yields at least one code unit.
#[verifier::external_body]
pub fn encode_wide(bytes: &Vec<u8>) -> (r: Vec<u16>)
    ensures
        r@ == wide_of(bytes@),
        bytes@.len() > 0 ==> r@.len() > 0,
{
    let s = String::from_utf8_lossy(bytes.as_slice());
    widestring::U16String::from_str(s.as_ref()).into_vec()
}

} // verus!
