//! Text/byte conversion at the boundary between caller-supplied text and the
//! raw byte streams of the terminal backend.
//!
//! Written text goes to the backend as its exact UTF-8 encoding; bytes read
//! back are decoded lossily (invalid sequences are replaced, a read chunk
//! never fails to decode).

use vstd::prelude::*;
use vstd::utf8::decode_utf8;
use vstd::utf8::encode_utf8;
use vstd::utf8::encode_utf8_decode_utf8;
use vstd::utf8::encode_utf8_valid_utf8;
use vstd::utf8::valid_utf8;

verus! {

/// The character sequence that lossy UTF-8 decoding yields for a given byte
/// sequence. It depends on the bytes alone; `decode_lossy` relates it to
/// `decode_utf8` on valid input.
pub uninterp spec fn lossy_decode(bytes: Seq<u8>) -> Seq<char>;

/// Relies on `String::from_utf8_lossy`: it never fails, replaces invalid
/// sequences with U+FFFD, decodes valid UTF-8 exactly, and yields text
/// if and only if it was given bytes.
#[verifier::external_body]
fn decode_lossy(bytes: &[u8]) -> (r: String)
    ensures
        r@ == lossy_decode(bytes@),
        valid_utf8(bytes@) ==> r@ == decode_utf8(bytes@),
        r@.len() == 0 <==> bytes@.len() == 0,
{
    String::from_utf8_lossy(bytes).into_owned()
}

/// The bytes that a `write` hands to the backend input stream: exactly the
/// UTF-8 encoding of the caller's text.
pub fn encode_input(data: &str) -> (r: Vec<u8>)
    ensures
        r@ == encode_utf8(data@),
{
    vstd::slice::slice_to_vec(data.as_bytes())
}

/// Decodes one chunk read from the backend output stream into text.
///
/// A chunk that is the exact UTF-8 encoding of some text decodes back to
/// that text (the byte-level round trip behind the write/read echo).
pub fn decode_chunk(bytes: &[u8]) -> (r: String)
    ensures
        r@ == lossy_decode(bytes@),
        valid_utf8(bytes@) ==> r@ == decode_utf8(bytes@),
        r@.len() == 0 <==> bytes@.len() == 0,
        forall|t: Seq<char>| bytes@ == #[trigger] encode_utf8(t) ==> r@ == t,
{
    let r = decode_lossy(bytes);
    proof {
        assert forall|t: Seq<char>| bytes@ == #[trigger] encode_utf8(t) implies r@ == t by {
            encode_utf8_valid_utf8(t);
            encode_utf8_decode_utf8(t);
        }
    }
    r
}

} // verus!
