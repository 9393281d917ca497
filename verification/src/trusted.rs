//! Everything this crate takes on trust: the contracts of the functions of
//! other crates that it calls, none of which is proved here.

use hyper::header::HeaderValue;
use hyper::StatusCode;
use vstd::prelude::*;
use vstd::utf8::encode_utf8;

verus! {

/// `String::push` of the standard library: the character is appended to the
/// end of the string.
pub assume_specification[ String::push ](s: &mut String, ch: char)
    ensures
        final(s)@ == old(s)@.push(ch),
;

/// The bytes that percent-encoding leaves as they are: ASCII letters and
/// digits, `-`, `.`, `_` and `~`.
pub open spec fn is_unreserved(b: u8) -> bool {
    ||| ('0' as u8) <= b <= ('9' as u8)
    ||| ('A' as u8) <= b <= ('Z' as u8)
    ||| ('a' as u8) <= b <= ('z' as u8)
    ||| b == '-' as u8
    ||| b == '.' as u8
    ||| b == '_' as u8
    ||| b == '~' as u8
}

/// The upper-case hexadecimal digit of a value below sixteen.
pub open spec fn hex_digit(d: int) -> char {
    if d < 10 {
        (('0' as u8) + d) as u8 as char
    } else {
        (('A' as u8) + d - 10) as u8 as char
    }
}

/// One byte percent-encoded: itself when unreserved, else `%` and its two
/// hexadecimal digits.
pub open spec fn escaped_byte(b: u8) -> Seq<char> {
    if is_unreserved(b) {
        seq![b as char]
    } else {
        seq!['%', hex_digit(b as int / 16), hex_digit(b as int % 16)]
    }
}

/// The percent-encoding of a byte string: the encodings of its bytes, in
/// order.
pub open spec fn percent_encoded(bytes: Seq<u8>) -> Seq<char>
    decreases bytes.len(),
{
    if bytes.len() == 0 {
        Seq::empty()
    } else {
        percent_encoded(bytes.drop_last()) + escaped_byte(bytes.last())
    }
}

/// `urlencoding::encode`: the UTF-8 bytes of `text` are percent-encoded one
/// by one, every byte but the unreserved ones becoming `%` and two
/// upper-case hexadecimal digits.
#[verifier::external_body]
pub(crate) fn percent_encode(text: &str) -> (out: String)
    ensures
        out@ == percent_encoded(encode_utf8(text@)),
{
    urlencoding::encode(text).into_owned()
}

/// A byte that a header value may hold as text: printable ASCII, the space
/// and the tab.
pub open spec fn is_visible_ascii(b: u8) -> bool {
    32 <= b < 127 || b == 9
}

/// Whether a header value reads as text: every byte of it is visible ASCII.
pub open spec fn header_is_text(bytes: Seq<u8>) -> bool {
    forall|i: int| 0 <= i < bytes.len() ==> is_visible_ascii(#[trigger] bytes[i])
}

/// The text of a header value of ASCII bytes: each byte as a character.
pub open spec fn header_text_spec(bytes: Seq<u8>) -> Seq<char> {
    Seq::new(bytes.len(), |i: int| bytes[i] as char)
}

/// `HeaderValue::from_bytes` followed by `HeaderValue::to_str`: the value
/// reads as text exactly when all its bytes are visible ASCII, and the text
/// is then those bytes. (`from_bytes` refuses control bytes, `to_str` also
/// the bytes from 128 on.)
#[verifier::external_body]
pub(crate) fn header_text(bytes: &[u8]) -> (text: Option<String>)
    ensures
        text is Some <==> header_is_text(bytes@),
        text matches Some(t) ==> t@ == header_text_spec(bytes@),
{
    match HeaderValue::from_bytes(bytes) {
        Ok(value) => match value.to_str() {
            Ok(text) => Some(text.to_string()),
            Err(_) => None,
        },
        Err(_) => None,
    }
}

/// The line of a status as `hyper` prints it, for the four statuses that
/// this crate replies with: the code, a space and the reason phrase.
pub open spec fn status_line(code: u16) -> Seq<char> {
    if code == 200 {
        "200 OK"@
    } else if code == 400 {
        "400 Bad Request"@
    } else if code == 404 {
        "404 Not Found"@
    } else {
        "500 Internal Server Error"@
    }
}

/// `StatusCode::from_u16` followed by the status's `Display`, which prints
/// the code, a space and the canonical reason phrase. Stated for the codes
/// 200, 400, 404 and 500 only.
#[verifier::external_body]
pub(crate) fn status_display(code: u16) -> (text: String)
    requires
        code == 200 || code == 400 || code == 404 || code == 500,
    ensures
        text@ == status_line(code),
{
    match StatusCode::from_u16(code) {
        Ok(status) => status.to_string(),
        Err(_) => String::new(),
    }
}

} // verus!
