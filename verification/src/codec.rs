//! Trusted calls into the codecs that the library leans on: Base64 (`base64`),
//! percent-encoding (`urlencoding`), URL parsing (`url`), UTF-8 decoding and
//! Unicode case mapping (std). Each item states what the outside code returns.
use base64::Engine;
use vstd::prelude::*;
use vstd::utf8::{decode_utf8, encode_utf8, valid_utf8};

verus! {

/// What `base64::engine::general_purpose::STANDARD.decode` gives for the UTF-8
/// bytes of a text: the decoded bytes, or `None` for a decode error.
pub uninterp spec fn base64_standard_decoded(input: Seq<char>) -> Option<Seq<u8>>;

/// What `base64::engine::general_purpose::URL_SAFE.decode` gives for the UTF-8
/// bytes of a text: the decoded bytes, or `None` for a decode error.
pub uninterp spec fn base64_url_safe_decoded(input: Seq<char>) -> Option<Seq<u8>>;

/// What `str::to_lowercase` gives (the Unicode lowercase mapping).
pub uninterp spec fn lowercased(s: Seq<char>) -> Seq<char>;

/// What `str::to_uppercase` gives (the Unicode uppercase mapping).
pub uninterp spec fn uppercased(s: Seq<char>) -> Seq<char>;

/// The parts of a parsed URL that the library reads.
pub struct UriParts {
    pub scheme: String,
    pub host: Option<String>,
    pub port: Option<u16>,
    pub fragment: Option<String>,
}

pub struct UriPartsView {
    pub scheme: Seq<char>,
    pub host: Option<Seq<char>>,
    pub port: Option<u16>,
    pub fragment: Option<Seq<char>>,
}

pub open spec fn opt_chars(o: Option<String>) -> Option<Seq<char>> {
    match o {
        Some(s) => Some(s@),
        None => None,
    }
}

impl View for UriParts {
    type V = UriPartsView;

    open spec fn view(&self) -> UriPartsView {
        UriPartsView {
            scheme: self.scheme@,
            host: opt_chars(self.host),
            port: self.port,
            fragment: opt_chars(self.fragment),
        }
    }
}

/// What `url::Url::parse` gives for a text, read through `scheme`, `host_str`,
/// `port` and `fragment`; `None` for a parse error.
pub uninterp spec fn url_components(input: Seq<char>) -> Option<UriPartsView>;

/// The value of an ASCII hexadecimal digit (either case).
pub open spec fn hex_value(b: u8) -> Option<u8> {
    if 48 <= b && b <= 57 {
        Some((b - 48) as u8)
    } else if 65 <= b && b <= 70 {
        Some((b - 55) as u8)
    } else if 97 <= b && b <= 102 {
        Some((b - 87) as u8)
    } else {
        None
    }
}

/// Percent-decoding of bytes: each `%` followed by two hexadecimal digits becomes
/// the byte they spell; every other byte, a lone `%` among them, stays as it is.
pub open spec fn percent_decode_bytes(b: Seq<u8>) -> Seq<u8>
    decreases b.len(),
{
    if b.len() == 0 {
        b
    } else if b[0] == 37 && b.len() >= 3 && hex_value(b[1]) is Some && hex_value(b[2]) is Some {
        seq![(hex_value(b[1])->0 * 16 + hex_value(b[2])->0) as u8] + percent_decode_bytes(b.skip(3))
    } else {
        seq![b[0]] + percent_decode_bytes(b.skip(1))
    }
}

/// Percent-decoding of a text taken as UTF-8: the text whose UTF-8 encoding the
/// decoded bytes are, or `None` where they are not valid UTF-8.
pub open spec fn percent_decoded(s: Seq<char>) -> Option<Seq<char>> {
    let b = percent_decode_bytes(encode_utf8(s));
    if valid_utf8(b) {
        Some(decode_utf8(b))
    } else {
        None
    }
}

/// Bytes left as they are by percent-encoding: ASCII letters and digits, `-`, `.`,
/// `_` and `~`.
pub open spec fn unreserved(b: u8) -> bool {
    (48 <= b && b <= 57) || (65 <= b && b <= 90) || (97 <= b && b <= 122) || b == 45 || b == 46
        || b == 95 || b == 126
}

/// The upper-case hexadecimal digit of a value below sixteen.
pub open spec fn hex_digit_upper(d: u8) -> char {
    if d < 10 {
        ((48 + d) as u32) as char
    } else {
        ((55 + d) as u32) as char
    }
}

/// Percent-encoding of bytes: unreserved bytes as their ASCII character, every
/// other byte as `%` and two upper-case hexadecimal digits.
pub open spec fn percent_encode_bytes(b: Seq<u8>) -> Seq<char>
    decreases b.len(),
{
    if b.len() == 0 {
        Seq::empty()
    } else {
        let head = if unreserved(b[0]) {
            seq![(b[0] as u32) as char]
        } else {
            seq!['%', hex_digit_upper(b[0] / 16), hex_digit_upper(b[0] % 16)]
        };
        head + percent_encode_bytes(b.skip(1))
    }
}

/// Percent-encoding of a text taken as UTF-8.
pub open spec fn percent_encoded(s: Seq<char>) -> Seq<char> {
    percent_encode_bytes(encode_utf8(s))
}

/// Calls `STANDARD.decode` of the `base64` crate on the UTF-8 bytes of `input`; a
/// decode error becomes `None`. The result is named by `base64_standard_decoded`.
#[verifier::external_body]
pub(crate) fn decode_base64_standard(input: &str) -> (r: Option<Vec<u8>>)
    ensures
        match r {
            Some(v) => base64_standard_decoded(input@) == Some(v@),
            None => base64_standard_decoded(input@) is None,
        },
{
    base64::engine::general_purpose::STANDARD.decode(input).ok()
}

/// Calls `URL_SAFE.decode` of the `base64` crate on the UTF-8 bytes of `input`; a
/// decode error becomes `None`. The result is named by `base64_url_safe_decoded`.
#[verifier::external_body]
pub(crate) fn decode_base64_url_safe(input: &str) -> (r: Option<Vec<u8>>)
    ensures
        match r {
            Some(v) => base64_url_safe_decoded(input@) == Some(v@),
            None => base64_url_safe_decoded(input@) is None,
        },
{
    base64::engine::general_purpose::URL_SAFE.decode(input).ok()
}

/// Calls `String::from_utf8`: the string whose UTF-8 encoding the bytes are, or
/// `None` where the bytes are not valid UTF-8.
#[verifier::external_body]
pub(crate) fn utf8_to_string(bytes: Vec<u8>) -> (r: Option<String>)
    ensures
        r is Some <==> valid_utf8(bytes@),
        r matches Some(s) ==> s@ == decode_utf8(bytes@),
{
    String::from_utf8(bytes).ok()
}

/// Calls `urlencoding::decode`: percent-decoding of the text's UTF-8 bytes (a `+`
/// stays a `+`), then UTF-8 validation; an invalid result becomes `None`.
#[verifier::external_body]
pub(crate) fn percent_decode(s: &str) -> (r: Option<String>)
    ensures
        opt_chars(r) == percent_decoded(s@),
{
    match urlencoding::decode(s) {
        Ok(c) => Some(c.into_owned()),
        Err(_) => None,
    }
}

/// Calls `urlencoding::encode`: every UTF-8 byte of the text that is not an ASCII
/// letter, digit, `-`, `.`, `_` or `~` becomes `%` and two upper-case hex digits.
#[verifier::external_body]
pub(crate) fn percent_encode(s: &str) -> (r: String)
    ensures
        r@ == percent_encoded(s@),
{
    urlencoding::encode(s).into_owned()
}

/// Calls `url::Url::parse` and reads `scheme`, `host_str`, `port` and `fragment`
/// of the result; a parse error becomes `None`. The result is named by
/// `url_components`.
#[verifier::external_body]
pub(crate) fn parse_url(input: &str) -> (r: Option<UriParts>)
    ensures
        match r {
            Some(p) => url_components(input@) == Some(p@),
            None => url_components(input@) is None,
        },
{
    match url::Url::parse(input) {
        Ok(u) => Some(UriParts {
            scheme: u.scheme().to_string(),
            host: u.host_str().map(String::from),
            port: u.port(),
            fragment: u.fragment().map(String::from),
        }),
        Err(_) => None,
    }
}

/// Calls `str::to_lowercase`. The result is named by `lowercased`.
#[verifier::external_body]
pub(crate) fn to_lowercase(s: &str) -> (r: String)
    ensures
        r@ == lowercased(s@),
{
    s.to_lowercase()
}

/// Calls `str::to_uppercase`. The result is named by `uppercased`.
#[verifier::external_body]
pub(crate) fn to_uppercase(s: &str) -> (r: String)
    ensures
        r@ == uppercased(s@),
{
    s.to_uppercase()
}

} // verus!
