//! The URL of the record lookup.

use crate::config::{Config, ConfigView};
use crate::trusted::{escaped_byte, hex_digit, is_unreserved, percent_encode, percent_encoded};
use vstd::prelude::*;
use vstd::string::*;
use vstd::utf8::encode_utf8;

verus! {

/// The collection in which the records are kept.
pub open spec fn collection() -> Seq<char> {
    "tools.queerlil.handles.page"@
}

/// The URL that returns the record stored under `key`: the `getRecord`
/// endpoint below the base, with the repository, the collection and the key
/// as query parameters, repository and key percent-encoded.
pub open spec fn lookup_url_spec(config: ConfigView, key: Seq<char>) -> Seq<char> {
    config.base_uri + "/xrpc/com.atproto.repo.getRecord?repo="@ + percent_encoded(
        encode_utf8(config.repo),
    ) + "&collection="@ + collection() + "&rkey="@ + percent_encoded(encode_utf8(key))
}

/// The URL that returns the record stored under `key`.
pub fn lookup_url(config: &Config, key: &str) -> (url: String)
    ensures
        url@ == lookup_url_spec(config@, key@),
{
    let mut url = config.base_uri.clone();
    url.append("/xrpc/com.atproto.repo.getRecord?repo=");
    url.append(percent_encode(config.repo.as_str()).as_str());
    url.append("&collection=");
    url.append("tools.queerlil.handles.page");
    url.append("&rkey=");
    url.append(percent_encode(key).as_str());
    url
}

/// The characters that percent-encoding puts out: the unreserved ones and
/// the percent sign.
pub open spec fn is_encoded_char(c: char) -> bool {
    c == '%' || ((c as u32) < 128 && is_unreserved(c as u8))
}

/// A percent-encoded text holds unreserved characters and percent signs only,
/// so none of the characters that part a URL's query: `&`, `=`, `#`, `?`.
/// A key can therefore not reach beyond its own parameter of the lookup URL.
pub proof fn lemma_percent_encoded_chars(bytes: Seq<u8>)
    ensures
        forall|i: int|
            0 <= i < percent_encoded(bytes).len() ==> is_encoded_char(
                #[trigger] percent_encoded(bytes)[i],
            ),
        !percent_encoded(bytes).contains('&'),
        !percent_encoded(bytes).contains('='),
        !percent_encoded(bytes).contains('#'),
        !percent_encoded(bytes).contains('?'),
    decreases bytes.len(),
{
    let out = percent_encoded(bytes);
    if bytes.len() > 0 {
        let front = percent_encoded(bytes.drop_last());
        let b = bytes.last();
        let tail = escaped_byte(b);
        lemma_percent_encoded_chars(bytes.drop_last());
        assert(is_encoded_char(hex_digit(b as int / 16)));
        assert(is_encoded_char(hex_digit(b as int % 16)));
        assert forall|i: int| 0 <= i < out.len() implies is_encoded_char(#[trigger] out[i]) by {
            if i < front.len() {
                assert(out[i] == front[i]);
            } else {
                assert(out[i] == tail[i - front.len()]);
            }
        }
    }
    assert forall|c: char| c == '&' || c == '=' || c == '#' || c == '?' implies !out.contains(
        c,
    ) by {
        if out.contains(c) {
            let i = choose|i: int| 0 <= i < out.len() && out[i] == c;
            assert(is_encoded_char(out[i]));
        }
    }
}

} // verus!
