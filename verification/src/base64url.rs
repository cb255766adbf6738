//! Base64url without padding, as the `base64` crate transcodes it.

use vstd::prelude::*;
use vstd::utf8::{encode_utf8, is_ascii_chars, is_ascii_chars_encode_utf8};

verus! {

/// Why a text could not be decoded.
#[derive(Debug, Clone, Copy, PartialEq, Eq)]
pub enum DecodeError {
    /// A byte outside the alphabet, with its offset.
    InvalidByte(usize, u8),
    /// A length that no encoding has.
    InvalidLength,
    /// A last symbol whose unused bits are not zero, with its offset.
    InvalidLastSymbol(usize, u8),
}

/// The text that `base64::encode_config_buf` writes for `data` under `URL_SAFE_NO_PAD`.
pub uninterp spec fn encoded(data: Seq<u8>) -> Seq<char>;

/// What `base64::decode_config_slice` makes of `text` under `URL_SAFE_NO_PAD`: the bytes it
/// writes, or the error it reports.
pub uninterp spec fn decoded(text: Seq<u8>) -> Result<Seq<u8>, DecodeError>;

/// The letters, digits, `-` and `_`: the alphabet of base64url.
pub open spec fn is_symbol(c: char) -> bool {
    ||| 'A' <= c <= 'Z'
    ||| 'a' <= c <= 'z'
    ||| '0' <= c <= '9'
    ||| c == '-'
    ||| c == '_'
}

/// Every character of `text` is in the alphabet.
pub open spec fn is_symbols(text: Seq<char>) -> bool {
    forall|i: int| 0 <= i < text.len() ==> is_symbol(#[trigger] text[i])
}

/// The bytes of a text of one-byte characters.
pub open spec fn ascii_bytes(text: Seq<char>) -> Seq<u8> {
    Seq::new(text.len(), |i: int| text[i] as u8)
}

/// The most bytes that a text of `len` bytes can decode to, as `base64` sizes its buffers.
pub open spec fn decoded_len_bound(len: nat) -> nat {
    ((len + 3) / 4 * 3) as nat
}

/// `text` is the encoding of `data`: it is what the encoder writes for `data`, it stays
/// within the alphabet, and the decoder takes it back to `data`.
pub open spec fn is_encoding(text: Seq<char>, data: Seq<u8>) -> bool {
    &&& text == encoded(data)
    &&& is_symbols(text)
    &&& decoded(ascii_bytes(text)) == Ok::<Seq<u8>, DecodeError>(data)
}

/// Appends the encoding of `data` to `text`.
///
/// Calls `base64::encode_config_buf` with `URL_SAFE_NO_PAD`. The contract names what is
/// appended and claims of it what the crate documents: it is made of the URL-safe alphabet
/// alone, and decoding it gives `data` back.
#[verifier::external_body]
pub(crate) fn encode_onto(data: &[u8], text: &mut String)
    ensures
        final(text)@ == old(text)@ + encoded(data@),
        is_encoding(final(text)@.skip(old(text)@.len() as int), data@),
{
    base64::encode_config_buf(data, base64::URL_SAFE_NO_PAD, text)
}

/// Decodes `text` into the front of `output` and returns how many bytes it wrote.
///
/// Calls `base64::decode_config_slice` with `URL_SAFE_NO_PAD`, which panics unless `text`
/// is short enough for its chunk count and `output` has room for the documented estimate
/// `(len + 3) / 4 * 3`. The contract names the outcome: on success the first `n` bytes of
/// `output` are the decoded data.
#[verifier::external_body]
pub(crate) fn decode_into(text: &[u8], output: &mut [u8]) -> (r: Result<usize, DecodeError>)
    requires
        text@.len() + 7 <= usize::MAX,
        old(output)@.len() >= decoded_len_bound(text@.len()),
    ensures
        final(output)@.len() == old(output)@.len(),
        r matches Ok(n) ==> n <= final(output)@.len() && (decoded(text@) matches Ok(data)
            && data == final(output)@.subrange(0, n as int)),
        r matches Err(e) ==> (decoded(text@) matches Err(cause) && cause == e),
{
    match base64::decode_config_slice(text, base64::URL_SAFE_NO_PAD, output) {
        Ok(n) => Ok(n),
        Err(base64::DecodeError::InvalidByte(at, byte)) => Err(DecodeError::InvalidByte(at, byte)),
        Err(base64::DecodeError::InvalidLength) => Err(DecodeError::InvalidLength),
        Err(base64::DecodeError::InvalidLastSymbol(at, byte)) => Err(
            DecodeError::InvalidLastSymbol(at, byte),
        ),
    }
}

/// The outcome of decoding, with the data as a sequence.
pub open spec fn outcome(r: Result<Vec<u8>, DecodeError>) -> Result<Seq<u8>, DecodeError> {
    match r {
        Ok(data) => Ok(data@),
        Err(e) => Err(e),
    }
}

/// Decodes `text` into a vector of its own.
pub fn decode(text: &[u8]) -> (r: Result<Vec<u8>, DecodeError>)
    requires
        text@.len() + 7 <= usize::MAX,
    ensures
        outcome(r) == decoded(text@),
{
    let room: usize = (text.len() + 3) / 4 * 3;
    let mut data: Vec<u8> = vec![0u8; room];
    let written = decode_into(text, data.as_mut_slice());
    match written {
        Ok(n) => {
            data.truncate(n);
            Ok(data)
        },
        Err(e) => Err(e),
    }
}

/// A text within the alphabet is made of one-byte characters, which are its UTF-8 encoding,
/// and none of them is a dot.
pub proof fn lemma_symbols(text: Seq<char>)
    requires
        is_symbols(text),
    ensures
        is_ascii_chars(text),
        encode_utf8(text) == ascii_bytes(text),
        crate::wire::is_segment(ascii_bytes(text)),
{
    assert forall|i: int| 0 <= i < text.len() implies '\0' <= #[trigger] text[i] <= '\u{7f}' by {
        assert(is_symbol(text[i]));
    }
    is_ascii_chars_encode_utf8(text);
    assert(encode_utf8(text) =~= ascii_bytes(text));
    assert forall|i: int| 0 <= i < text.len() implies #[trigger] ascii_bytes(text)[i]
        != crate::wire::SEPARATOR by {
        assert(is_symbol(text[i]));
    }
}

} // verus!
