//! Byte decoding: resolve the declared charset with a provisional lossy
//! pass, then decode the whole buffer strictly with the declared encoding.

use vstd::prelude::*;

use crate::ast::Charset;
use crate::parse::charset::{charset_header_comments, charset_line, spec_charset_header_comments,
    spec_charset_line};
use crate::parse::parts::text_chars;

verus! {

/// Why a byte buffer could not be decoded.
#[derive(Debug, Clone, Copy, PartialEq, Eq, Structural)]
pub enum DecodeError {
    /// No `charset,<name>` declaration was found before the end of input.
    CharsetNotFound,
    /// The buffer is not valid under the declared charset: the strict decode
    /// reported malformed sequences or would have substituted characters.
    DecodeFailed(Charset),
}

/// What `String::from_utf8_lossy` yields for these bytes: a fixed function
/// of the bytes alone.
pub uninterp spec fn utf8_lossy_of(bytes: Seq<u8>) -> Seq<char>;

/// Relies on std's `String::from_utf8_lossy`: deterministic in the bytes,
/// valid UTF-8 kept as is, malformed sequences replaced.
#[verifier::external_body]
fn utf8_lossy(bytes: &[u8]) -> (r: String)
    ensures
        r@ == utf8_lossy_of(bytes@),
{
    String::from_utf8_lossy(bytes).into_owned()
}

/// Whether this charset decodes through the Shift_JIS decoder; every other
/// declared value decodes as UTF-8.
pub open spec fn spec_uses_shift_jis(cs: Charset) -> bool {
    cs == Charset::ShiftJIS
}

fn uses_shift_jis(cs: &Charset) -> (r: bool)
    ensures
        r == spec_uses_shift_jis(*cs),
{
    match cs {
        Charset::ShiftJIS => true,
        _ => false,
    }
}

/// What the strict whole-buffer decode yields for these bytes with the
/// chosen decoder (`Shift_JIS` or UTF-8): `None` when the decode reported
/// malformed sequences or a byte-order mark switched the encoding; a fixed
/// function of the decoder choice and the bytes alone.
pub uninterp spec fn decoded_text(shift_jis: bool, bytes: Seq<u8>) -> Option<Seq<char>>;

/// Relies on encoding_rs's `Encoding::decode` on `SHIFT_JIS` or `UTF_8`:
/// deterministic in the decoder and bytes; the decode fails exactly when it
/// reported malformed sequences or used another encoding than asked for.
/// The length bound stays clear of the documented panic when the output
/// buffer size calculation overflows `usize`.
#[verifier::external_body]
fn decode_with(bytes: &[u8], shift_jis: bool) -> (r: Option<String>)
    requires
        bytes@.len() <= usize::MAX / 4,
    ensures
        r is Some <==> decoded_text(shift_jis, bytes@) is Some,
        r matches Some(t) ==> decoded_text(shift_jis, bytes@) == Some(t@),
{
    let enc = if shift_jis {
        encoding_rs::SHIFT_JIS
    } else {
        encoding_rs::UTF_8
    };
    let (cow, used, had_errors) = enc.decode(bytes);
    if had_errors || used != enc {
        None
    } else {
        Some(cow.into_owned())
    }
}

/// Decode a buffer strictly with an already-resolved charset.
pub fn decode(input: &[u8], charset: &Charset) -> (r: Result<String, ()>)
    requires
        input@.len() <= usize::MAX / 4,
    ensures
        match r {
            Ok(t) => decoded_text(spec_uses_shift_jis(*charset), input@) == Some(t@),
            Err(_) => decoded_text(spec_uses_shift_jis(*charset), input@) is None,
        },
{
    match decode_with(input, uses_shift_jis(charset)) {
        Some(t) => Ok(t),
        None => Err(()),
    }
}

/// The charset declared by the first line of the text that is not swallowed
/// by the leading comment scan, if any.
pub open spec fn spec_located_charset(s: Seq<char>) -> Option<Charset> {
    let head = spec_charset_header_comments(s, 0);
    match spec_charset_line(s, head.0) {
        Some((_p, cs)) => Some(cs),
        None => None,
    }
}

/// Decode a raw buffer: a provisional lossy UTF-8 pass locates the
/// `charset,<name>` declaration, then the whole original buffer is decoded
/// strictly with the declared encoding. No lossy fallback: a buffer that is
/// not valid under its declared charset is an error.
pub fn decode_bytes(input: &[u8]) -> (r: Result<String, DecodeError>)
    requires
        input@.len() <= usize::MAX / 4,
    ensures
        match spec_located_charset(utf8_lossy_of(input@)) {
            None => r == Err::<String, DecodeError>(DecodeError::CharsetNotFound),
            Some(cs) => match r {
                Ok(t) => decoded_text(spec_uses_shift_jis(cs), input@) == Some(t@),
                Err(e) => e == DecodeError::DecodeFailed(cs) && decoded_text(
                    spec_uses_shift_jis(cs),
                    input@,
                ) is None,
            },
        },
{
    let lossy = utf8_lossy(input);
    let chars = text_chars(lossy.as_str());
    let (p0, _head) = charset_header_comments(&chars, 0);
    let cs = match charset_line(&chars, p0) {
        Some((_p, cs)) => cs,
        None => {
            return Err(DecodeError::CharsetNotFound);
        },
    };
    match decode_with(input, uses_shift_jis(&cs)) {
        Some(t) => Ok(t),
        None => Err(DecodeError::DecodeFailed(cs)),
    }
}

} // verus!
