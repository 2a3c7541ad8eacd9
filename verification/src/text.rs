//! Text as it is stored: UTF-8 bytes.

use vstd::prelude::*;
use vstd::string::*;
use vstd::utf8::*;

verus! {

/// The UTF-8 bytes of a text.
pub fn text_to_bytes(s: &String) -> (out: Vec<u8>)
    ensures
        out@ == encode_utf8(s@),
{
    s.as_str().as_bytes_vec()
}

/// Calls `String::from_utf8`. Trusted: it accepts exactly the valid UTF-8
/// byte strings, and the text it gives is the one that they encode.
#[verifier::external_body]
pub(crate) fn text_from_bytes(bytes: Vec<u8>) -> (text: Option<String>)
    ensures
        text is Some <==> valid_utf8(bytes@),
        text matches Some(s) ==> s@ == decode_utf8(bytes@),
{
    String::from_utf8(bytes).ok()
}

/// Whether two texts hold the same characters.
pub fn text_eq(a: &String, b: &String) -> (same: bool)
    ensures
        same == (a@ == b@),
{
    *a == *b
}

/// Decoding the UTF-8 bytes of a text gives the text.
pub proof fn lemma_text_round_trip(s: Seq<char>)
    ensures
        valid_utf8(encode_utf8(s)),
        decode_utf8(encode_utf8(s)) == s,
{
    encode_utf8_valid_utf8(s);
    encode_utf8_decode_utf8(s);
}

} // verus!
