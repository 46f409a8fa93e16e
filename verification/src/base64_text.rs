//! Bytes as base64 text.

use vstd::prelude::*;

verus! {

/// The text that the standard engine of `base64` encodes bytes as.
pub uninterp spec fn base64_encoded(bytes: Seq<u8>) -> Seq<char>;

/// What the standard engine of `base64` decodes a text as: bytes, or the message of the error.
pub uninterp spec fn base64_decoded(text: Seq<char>) -> Result<Seq<u8>, Seq<char>>;

/// The characters of the standard alphabet of base64.
pub open spec fn base64_char(c: char) -> bool {
    'A' <= c <= 'Z' || 'a' <= c <= 'z' || '0' <= c <= '9' || c == '+' || c == '/' || c == '='
}

/// Whether a text decodes as the bytes that it was encoded from.
pub open spec fn decodes_as(text: Seq<char>, bytes: Seq<u8>) -> bool {
    base64_decoded(text) == Ok::<Seq<u8>, Seq<char>>(bytes)
}

/// The number of characters that bytes are encoded as: four for every three bytes, the last of
/// which are filled up.
pub open spec fn encoded_len(bytes: nat) -> nat {
    (bytes + 2) / 3 * 4
}

/// Whether the encoded text of so many bytes can be held in memory.
pub open spec fn encodable(bytes: nat) -> bool {
    encoded_len(bytes) <= isize::MAX
}

/// Whether the encoded text of so many bytes can be held in memory.
pub fn can_encode(bytes: usize) -> (r: bool)
    ensures
        r == encodable(bytes as nat),
{
    let whole: usize = bytes / 3;
    let groups: usize = if bytes % 3 == 0 {
        whole
    } else {
        whole + 1
    };
    proof {
        assert(groups == (bytes + 2) / 3);
    }
    groups <= (isize::MAX as usize) / 4
}

/// `base64::engine::general_purpose::STANDARD.encode`. Its result is a function of the bytes, is
/// made of the standard alphabet, and decodes as the bytes again. It panics where the text
/// cannot be held in memory.
#[verifier::external_body]
pub(crate) fn encode_bytes(bytes: &[u8]) -> (r: String)
    requires
        encodable(bytes@.len()),
    ensures
        r@ == base64_encoded(bytes@),
        r@.len() == encoded_len(bytes@.len()),
        forall|i: int| 0 <= i < r@.len() ==> base64_char(#[trigger] r@[i]),
        decodes_as(r@, bytes@),
{
    base64::Engine::encode(&base64::engine::general_purpose::STANDARD, bytes)
}

/// `base64::engine::general_purpose::STANDARD.decode`. Its result is a function of the text.
#[verifier::external_body]
pub(crate) fn decode_text(text: &str) -> (r: Result<Vec<u8>, String>)
    ensures
        match r {
            Ok(bytes) => base64_decoded(text@) == Ok::<Seq<u8>, Seq<char>>(bytes@),
            Err(message) => base64_decoded(text@) == Err::<Seq<u8>, Seq<char>>(message@),
        },
{
    base64::Engine::decode(&base64::engine::general_purpose::STANDARD, text).map_err(
        |error| error.to_string(),
    )
}

} // verus!
