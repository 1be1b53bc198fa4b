//! The `Host` header value as the transport hands it over.

use crate::text::text_of;
use vstd::prelude::*;
use vstd::string::*;
use vstd::utf8::*;

verus! {

/// A header value of `http`: a sequence of bytes, named by
/// `header_value_bytes`.
#[verifier::external_type_specification]
#[verifier::external_body]
pub struct ExHeaderValue(http::HeaderValue);

/// The error of `http::HeaderValue::to_str`. It is never read.
#[verifier::external_type_specification]
#[verifier::external_body]
pub struct ExToStrError(http::header::ToStrError);

/// The bytes that a header value holds.
pub uninterp spec fn header_value_bytes(value: http::HeaderValue) -> Seq<u8>;

/// A byte that may stand in a header value that is read as text: a tab or a
/// printable ASCII character.
pub open spec fn is_visible_ascii(b: u8) -> bool {
    (32 <= b && b < 127) || b == 9
}

/// Whether every byte of the sequence is a tab or a printable ASCII character.
pub open spec fn all_visible_ascii(bytes: Seq<u8>) -> bool {
    forall|i: int| 0 <= i < bytes.len() ==> is_visible_ascii(#[trigger] bytes[i])
}

/// `http::HeaderValue::to_str` gives the value as text exactly when every byte
/// of it is a tab or a printable ASCII character, and the text is then made of
/// the value's own bytes.
pub assume_specification<'a>[ http::HeaderValue::to_str ](value: &'a http::HeaderValue) -> (text:
    Result<&'a str, http::header::ToStrError>)
    ensures
        text is Ok <==> all_visible_ascii(header_value_bytes(*value)),
        text matches Ok(s) ==> s.spec_bytes() == header_value_bytes(*value),
;

/// The text whose characters are the given ASCII bytes.
pub open spec fn ascii_text(bytes: Seq<u8>) -> Seq<char> {
    Seq::new(bytes.len(), |i: int| bytes[i] as char)
}

/// The text of a header value: present exactly when the header is present and
/// every byte of its value is a tab or a printable ASCII character.
pub open spec fn header_text(value: Option<&http::HeaderValue>) -> Option<Seq<char>> {
    match value {
        Some(v) => if all_visible_ascii(header_value_bytes(*v)) {
            Some(ascii_text(header_value_bytes(*v)))
        } else {
            None
        },
        None => None,
    }
}

/// A text whose UTF-8 encoding has only ASCII bytes is made of those bytes.
pub proof fn lemma_ascii_bytes_are_the_text(text: Seq<char>, bytes: Seq<u8>)
    requires
        encode_utf8(text) == bytes,
        forall|i: int| 0 <= i < bytes.len() ==> #[trigger] bytes[i] < 128,
    ensures
        text == ascii_text(bytes),
        is_ascii_chars(text),
{
    let chars = ascii_text(bytes);
    assert(is_ascii_chars(chars)) by {
        assert forall|i: int| 0 <= i < chars.len() implies '\0' <= #[trigger] chars[i]
            <= '\u{7f}' by {
            assert(bytes[i] < 128);
        }
    }
    is_ascii_chars_encode_utf8(chars);
    assert(encode_utf8(chars) =~= bytes) by {
        assert forall|i: int| 0 <= i < bytes.len() implies encode_utf8(chars)[i] == bytes[i] by {
            assert(chars[i] as u8 == encode_utf8(chars)[i]);
            assert(bytes[i] < 128);
        }
    }
    encode_utf8_decode_utf8(chars);
    encode_utf8_decode_utf8(text);
}

/// Reads a header value as text.
pub fn read_header(value: Option<&http::HeaderValue>) -> (text: Option<&str>)
    ensures
        text_of(text) == header_text(value),
{
    match value {
        None => None,
        Some(v) => match v.to_str() {
            Ok(s) => {
                proof {
                    lemma_ascii_bytes_are_the_text(s@, header_value_bytes(*v));
                }
                Some(s)
            },
            Err(_) => None,
        },
    }
}

} // verus!
