use vstd::prelude::*;
use vstd::utf8::{decode_utf8, encode_utf8, valid_utf8};

verus! {

/// Size of the buffer that one read of a message fills.
pub const READ_BUFFER_LEN: usize = 1024;

/// What lossy decoding gives for bytes that are not valid UTF-8.
pub uninterp spec fn lossy_utf8(bytes: Seq<u8>) -> Seq<char>;

/// The text that received bytes stand for: their UTF-8 decoding when they
/// are valid, the lossy decoding (each invalid sequence replaced) otherwise.
pub open spec fn decoded(bytes: Seq<u8>) -> Seq<char> {
    if valid_utf8(bytes) {
        decode_utf8(bytes)
    } else {
        lossy_utf8(bytes)
    }
}

/// Relies on `String::from_utf8_lossy`: valid UTF-8 is decoded as is, and
/// only invalid sequences are replaced.
#[verifier::external_body]
fn from_utf8_lossy(bytes: &[u8]) -> (r: String)
    ensures
        r@ == (if valid_utf8(bytes@) {
            decode_utf8(bytes@)
        } else {
            lossy_utf8(bytes@)
        }),
{
    String::from_utf8_lossy(bytes).into_owned()
}

/// Decodes received bytes into the message text, replacing invalid
/// sequences rather than rejecting them.
pub fn decode_message(data: &[u8]) -> (r: String)
    ensures
        r@ == decoded(data@),
{
    from_utf8_lossy(data)
}

/// The bytes that sending `event` puts on the wire.
pub fn encode_event(event: &str) -> (r: &[u8])
    ensures
        r@ == encode_utf8(event@),
{
    event.as_bytes()
}

/// Text that was sent is received unchanged: decoding the bytes of any
/// text gives that text back.
pub proof fn lemma_decode_encode(text: Seq<char>)
    ensures
        decoded(encode_utf8(text)) == text,
{
    vstd::utf8::encode_utf8_valid_utf8(text);
    vstd::utf8::encode_utf8_decode_utf8(text);
}

} // verus!
