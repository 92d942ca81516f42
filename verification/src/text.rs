use vstd::prelude::*;
use vstd::utf8::{valid_utf8, decode_utf8, encode_utf8};

verus! {

/// What `String::from_utf8_lossy` makes of bytes that are not valid UTF-8
/// (each invalid sequence replaced by U+FFFD); a function of the bytes alone.
pub uninterp spec fn spec_lossy_invalid(bytes: Seq<u8>) -> Seq<char>;

/// The text that `String::from_utf8_lossy` reads from `bytes`: the decoded
/// text when the bytes are valid UTF-8, and otherwise the replacement text.
pub open spec fn spec_utf8_lossy(bytes: Seq<u8>) -> Seq<char> {
    if valid_utf8(bytes) {
        decode_utf8(bytes)
    } else {
        spec_lossy_invalid(bytes)
    }
}

/// Reads bytes as text with `String::from_utf8_lossy`. Its contract: valid
/// UTF-8 is decoded (the standard library's documented behaviour), and any
/// other input gives the one text that `spec_lossy_invalid` names for it;
/// what that replacement text is, is left unsaid.
#[verifier::external_body]
pub(crate) fn utf8_lossy(bytes: &[u8]) -> (text: String)
    ensures
        valid_utf8(bytes@) ==> text@ == decode_utf8(bytes@),
        !valid_utf8(bytes@) ==> text@ == spec_lossy_invalid(bytes@),
{
    String::from_utf8_lossy(bytes).into_owned()
}

/// The UTF-8 bytes of a text.
pub fn text_bytes(s: &String) -> (b: Vec<u8>)
    ensures
        b@ == encode_utf8(s@),
{
    vstd::slice::slice_to_vec(s.as_str().as_bytes())
}

/// Reading back the bytes of a text with `from_utf8_lossy` gives the text.
pub proof fn lemma_lossy_of_bytes(s: Seq<char>)
    ensures
        spec_utf8_lossy(encode_utf8(s)) == s,
{
    vstd::utf8::encode_utf8_valid_utf8(s);
    vstd::utf8::encode_utf8_decode_utf8(s);
}

} // verus!
