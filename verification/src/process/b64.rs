//! Base64 text of bytes, in the two variants that the commands offer.

use base64::engine::general_purpose::{STANDARD, URL_SAFE_NO_PAD};
use base64::Engine;
use vstd::prelude::*;

use crate::cli::Base64Format;
use crate::process::ProcessError;

verus! {

/// `base64::DecodeError`, never read: every such error is `Encoding`.
#[verifier::external_type_specification]
#[verifier::external_body]
pub struct ExDecodeError(base64::DecodeError);

/// The text that `base64`'s `STANDARD` engine encodes `bytes` to.
pub uninterp spec fn standard_encoding(bytes: Seq<u8>) -> Seq<char>;

/// The bytes that `base64`'s `STANDARD` engine decodes `text` to, or `None`
/// where it rejects `text`.
pub uninterp spec fn standard_decoding(text: Seq<char>) -> Option<Seq<u8>>;

/// The text that `base64`'s `URL_SAFE_NO_PAD` engine encodes `bytes` to.
pub uninterp spec fn url_safe_encoding(bytes: Seq<u8>) -> Seq<char>;

/// The bytes that `base64`'s `URL_SAFE_NO_PAD` engine decodes `text` to, or
/// `None` where it rejects `text`.
pub uninterp spec fn url_safe_decoding(text: Seq<char>) -> Option<Seq<u8>>;

/// Whether the text of `len` bytes, padded or not, has a length that a
/// vector can have: no more than `isize::MAX`.
pub open spec fn encodable(len: nat) -> bool {
    len / 3 * 4 + 4 <= isize::MAX
}

/// Tells whether `len` bytes can be encoded.
pub fn is_encodable(len: usize) -> (fits: bool)
    ensures
        fits == encodable(len as nat),
{
    len / 3 <= (usize::MAX / 2 - 4) / 4
}

/// The number of characters that `len` bytes take without padding: four for
/// every three bytes, and two or three for one or two bytes left over.
pub open spec fn unpadded_len(len: nat) -> nat {
    len / 3 * 4 + if len % 3 == 0 {
        0nat
    } else {
        len % 3 + 1
    }
}

/// Whether `c` belongs to the URL-safe alphabet: a letter, a digit, `-` or `_`.
pub open spec fn is_url_safe_char(c: char) -> bool {
    ||| 'A' <= c <= 'Z'
    ||| 'a' <= c <= 'z'
    ||| '0' <= c <= '9'
    ||| c == '-'
    ||| c == '_'
}

/// Whether `text` can stand in a URL or a file name as it is: every
/// character belongs to the URL-safe alphabet, so none is padding.
pub open spec fn is_url_safe_text(text: Seq<char>) -> bool {
    forall|i: int| 0 <= i < text.len() ==> is_url_safe_char(#[trigger] text[i])
}

/// `Engine::encode` of `base64`, on its `STANDARD` engine. Trusted: the
/// result is the named encoding of `bytes`, and the same engine decodes it
/// back to `bytes`. The length bound keeps the call from panicking when it
/// sizes and allocates its buffer.
#[verifier::external_body]
fn standard_encode(bytes: &[u8]) -> (text: String)
    requires
        encodable(bytes@.len()),
    ensures
        text@ == standard_encoding(bytes@),
        standard_decoding(text@) == Some(bytes@),
{
    STANDARD.encode(bytes)
}

/// `Engine::decode` of `base64`, on its `STANDARD` engine. Trusted: the
/// result is the named decoding of `text`, an error where that is `None`.
#[verifier::external_body]
fn standard_decode(text: &str) -> (result: Result<Vec<u8>, base64::DecodeError>)
    ensures
        match result {
            Ok(bytes) => standard_decoding(text@) == Some(bytes@),
            Err(_) => standard_decoding(text@) is None,
        },
{
    STANDARD.decode(text)
}

/// `Engine::encode` of `base64`, on its `URL_SAFE_NO_PAD` engine. Trusted:
/// the result is the named encoding of `bytes`; the same engine decodes it
/// back to `bytes`; it is drawn from the URL-safe alphabet and has no
/// padding, so its length is the unpadded one. The length bound keeps the
/// call from panicking when it sizes and allocates its buffer.
#[verifier::external_body]
fn url_safe_encode(bytes: &[u8]) -> (text: String)
    requires
        encodable(bytes@.len()),
    ensures
        text@ == url_safe_encoding(bytes@),
        url_safe_decoding(text@) == Some(bytes@),
        is_url_safe_text(text@),
        text@.len() == unpadded_len(bytes@.len()),
{
    URL_SAFE_NO_PAD.encode(bytes)
}

/// `Engine::decode` of `base64`, on its `URL_SAFE_NO_PAD` engine. Trusted:
/// the result is the named decoding of `text`, an error where that is `None`.
#[verifier::external_body]
fn url_safe_decode(text: &str) -> (result: Result<Vec<u8>, base64::DecodeError>)
    ensures
        match result {
            Ok(bytes) => url_safe_decoding(text@) == Some(bytes@),
            Err(_) => url_safe_decoding(text@) is None,
        },
{
    URL_SAFE_NO_PAD.decode(text)
}

/// The base64 text of `bytes` in the variant `format`.
pub open spec fn encoding(format: Base64Format, bytes: Seq<u8>) -> Seq<char> {
    match format {
        Base64Format::Standard => standard_encoding(bytes),
        Base64Format::UrlSafe => url_safe_encoding(bytes),
    }
}

/// The bytes that `text` stands for in the variant `format`, or `None` where
/// `text` is not base64 of that variant.
pub open spec fn decoding(format: Base64Format, text: Seq<char>) -> Option<Seq<u8>> {
    match format {
        Base64Format::Standard => standard_decoding(text),
        Base64Format::UrlSafe => url_safe_decoding(text),
    }
}

/// Encodes `input` as base64 text. Decoding the text in the same variant
/// gives `input` back.
pub fn process_encode(input: &[u8], format: Base64Format) -> (encoded: String)
    requires
        encodable(input@.len()),
    ensures
        encoded@ == encoding(format, input@),
        decoding(format, encoded@) == Some(input@),
        format == Base64Format::UrlSafe ==> is_url_safe_text(encoded@) && encoded@.len()
            == unpadded_len(input@.len()),
{
    match format {
        Base64Format::Standard => standard_encode(input),
        Base64Format::UrlSafe => url_safe_encode(input),
    }
}

/// Decodes base64 text. Fails with `Encoding` exactly where `input` is not
/// base64 of the variant `format`.
pub fn process_decode(input: &str, format: Base64Format) -> (result: Result<
    Vec<u8>,
    ProcessError,
>)
    ensures
        match result {
            Ok(bytes) => decoding(format, input@) == Some(bytes@),
            Err(e) => e == ProcessError::Encoding && decoding(format, input@) is None,
        },
{
    let decoded = match format {
        Base64Format::Standard => standard_decode(input),
        Base64Format::UrlSafe => url_safe_decode(input),
    };
    match decoded {
        Ok(bytes) => Ok(bytes),
        Err(_) => Err(ProcessError::Encoding),
    }
}

} // verus!
