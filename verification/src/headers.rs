//! Response headers as the contracts of this crate see them.

use actix_web::http::header::{HeaderMap, HeaderValue, InvalidHeaderValue, CACHE_CONTROL};
use vstd::prelude::*;
use vstd::utf8::{
    char_is_scalar, encode_scalar, encode_utf8, has_width_1_encoding, has_width_2_encoding,
    has_width_3_encoding, last_continuation_byte, leading_byte_width_1, leading_byte_width_2,
    leading_byte_width_3, leading_byte_width_4, second_last_continuation_byte,
    third_last_continuation_byte,
};

verus! {

/// The header map of the web framework, a multi-map from header names to
/// header values. Its inside is hidden from the verifier.
#[verifier::external_type_specification]
#[verifier::external_body]
pub struct ExHeaderMap(actix_web::http::header::HeaderMap);

/// One header value of the web framework. Its inside is hidden from the
/// verifier.
#[verifier::external_type_specification]
#[verifier::external_body]
pub struct ExHeaderValue(actix_web::http::header::HeaderValue);

/// The error with which the web framework refuses a header value. It holds
/// nothing.
#[verifier::external_type_specification]
#[verifier::external_body]
pub struct ExInvalidHeaderValue(actix_web::http::header::InvalidHeaderValue);

/// What a header map holds: for each header name that is present, in lower
/// case, the bytes of its values in the order in which they were added.
pub uninterp spec fn header_entries(headers: HeaderMap) -> Map<Seq<char>, Seq<Seq<u8>>>;

/// The bytes of a header value, as `HeaderValue::as_bytes` gives them.
pub uninterp spec fn header_value_bytes(value: HeaderValue) -> Seq<u8>;

/// The name under which a header map holds the cache-control header.
pub open spec fn cache_control_name() -> Seq<char> {
    "cache-control"@
}

/// Whether `byte` may stand in a header value: any byte but the control
/// characters, of which only the tab is let in.
pub open spec fn is_value_byte(byte: u8) -> bool {
    (byte >= 32 && byte != 127) || byte == 9
}

/// Whether every byte of `bytes` may stand in a header value.
pub open spec fn is_header_value(bytes: Seq<u8>) -> bool {
    forall|i: int| 0 <= i < bytes.len() ==> is_value_byte(#[trigger] bytes[i])
}

/// Whether `c` may stand in a header value: any character but the control
/// characters of ASCII, of which only the tab is let in.
pub open spec fn is_value_char(c: char) -> bool {
    (c >= ' ' && c != '\u{7f}') || c == '\t'
}

/// Whether every character of `text` may stand in a header value.
pub open spec fn is_header_text(text: Seq<char>) -> bool {
    forall|i: int| 0 <= i < text.len() ==> is_value_char(#[trigger] text[i])
}

/// `HeaderValue::from_str` of the `http` crate, reached through the web
/// framework.
///
/// Believed, not proved: the call walks the bytes of `src` and fails at the
/// first one that is a control character other than the tab; where there is
/// none it gives a value that holds exactly the bytes of `src`.
pub assume_specification[ actix_web::http::header::HeaderValue::from_str ](src: &str) -> (made:
    Result<HeaderValue, InvalidHeaderValue>)
    ensures
        made is Ok <==> is_header_value(encode_utf8(src@)),
        made matches Ok(value) ==> header_value_bytes(value) == encode_utf8(src@),
;

/// Calls `HeaderMap::insert` of the web framework with the name
/// `CACHE_CONTROL`.
///
/// Believed, not proved: after the call the map holds `value` as the one
/// value of the cache-control header, whatever it held under that name
/// before, and every other header as it was.
#[verifier::external_body]
pub(crate) fn insert_cache_control(headers: &mut HeaderMap, value: HeaderValue)
    ensures
        header_entries(*final(headers)) == header_entries(*old(headers)).insert(
            cache_control_name(),
            seq![header_value_bytes(value)],
        ),
{
    headers.insert(CACHE_CONTROL, value);
}

/// The bytes that encode one character may all stand in a header value
/// exactly when the character may.
proof fn encoded_char_is_value(c: char)
    ensures
        is_header_value(encode_scalar(c as u32)) <==> is_value_char(c),
{
    let s = c as u32;
    let bytes = encode_scalar(s);
    char_is_scalar(c);
    if has_width_1_encoding(s) {
        assert(leading_byte_width_1(s) == s) by (bit_vector)
            requires
                s <= 0x7f,
        ;
        assert(bytes[0] == s);
    } else if has_width_2_encoding(s) {
        assert(leading_byte_width_2(s) >= 0x80 && last_continuation_byte(s) >= 0x80)
            by (bit_vector);
    } else if has_width_3_encoding(s) {
        assert(leading_byte_width_3(s) >= 0x80 && second_last_continuation_byte(s) >= 0x80
            && last_continuation_byte(s) >= 0x80) by (bit_vector);
    } else {
        assert(leading_byte_width_4(s) >= 0x80 && third_last_continuation_byte(s) >= 0x80
            && second_last_continuation_byte(s) >= 0x80 && last_continuation_byte(s) >= 0x80)
            by (bit_vector);
    }
}

/// A text may stand in a header value, byte by byte in its UTF-8 encoding,
/// exactly when each of its characters may.
pub proof fn header_value_by_chars(text: Seq<char>)
    ensures
        is_header_value(encode_utf8(text)) <==> is_header_text(text),
    decreases text.len(),
{
    if text.len() > 0 {
        let rest = text.drop_first();
        let head = encode_scalar(text[0] as u32);
        let tail = encode_utf8(rest);
        encoded_char_is_value(text[0]);
        header_value_by_chars(rest);
        if is_header_text(text) {
            assert(is_header_text(rest));
            assert(is_header_value(head + tail));
        }
        if is_header_value(head + tail) {
            assert forall|i: int| 0 <= i < head.len() implies is_value_byte(#[trigger] head[i]) by {
                assert((head + tail)[i] == head[i]);
            }
            assert forall|i: int| 0 <= i < tail.len() implies is_value_byte(#[trigger] tail[i]) by {
                assert((head + tail)[i + head.len()] == tail[i]);
            }
            assert forall|i: int| 0 <= i < text.len() implies is_value_char(#[trigger] text[i]) by {
                if i > 0 {
                    assert(rest[i - 1] == text[i]);
                }
            }
        }
    }
}

} // verus!
