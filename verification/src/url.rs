//! The addresses that requests go to.

use vstd::prelude::*;
use vstd::string::StringExecFns;
use vstd::string::StringSliceAdditionalSpecFns;
use vstd::utf8::encode_utf8;
use crate::text::push_char;

verus! {

/// The address of the service.
pub const API_URL: &'static str = "https://dictionary.yandex.net/api/v1/dicservice.json";

/// Whether a byte is an ASCII digit.
pub open spec fn is_digit(byte: u8) -> bool {
    0x30 <= byte <= 0x39
}

/// Whether a byte is an ASCII letter.
pub open spec fn is_letter(byte: u8) -> bool {
    0x41 <= byte <= 0x5A || 0x61 <= byte <= 0x7A
}

/// Whether a byte is one of `-`, `.`, `_` and `~`.
pub open spec fn is_mark(byte: u8) -> bool {
    byte == 0x2D || byte == 0x2E || byte == 0x5F || byte == 0x7E
}

/// Whether a byte stands for itself in a query: an ASCII letter or digit, or
/// one of `-`, `.`, `_` and `~`.
pub open spec fn is_unreserved(byte: u8) -> bool {
    is_digit(byte) || is_letter(byte) || is_mark(byte)
}

/// The digit for a number below sixteen: `0` to `9`, then `A` to `F`.
pub open spec fn hex_digit(nibble: u8) -> char {
    if nibble < 10 {
        (0x30 + nibble) as u8 as char
    } else {
        (0x37 + nibble) as u8 as char
    }
}

/// A byte as it stands in a query: itself where it is unreserved, and else
/// `%` with its two hexadecimal digits.
pub open spec fn escaped(byte: u8) -> Seq<char> {
    if is_unreserved(byte) {
        seq![byte as char]
    } else {
        seq!['%', hex_digit(byte / 16), hex_digit(byte % 16)]
    }
}

/// Some bytes as they stand in a query, one after the other.
pub open spec fn percent_encoded(bytes: Seq<u8>) -> Seq<char>
    decreases bytes.len(),
{
    if bytes.len() == 0 {
        Seq::empty()
    } else {
        percent_encoded(bytes.drop_last()) + escaped(bytes.last())
    }
}

/// A text as it stands in a query: the bytes of its UTF-8 form,
/// percent-encoded.
pub open spec fn url_encoded(text: Seq<char>) -> Seq<char> {
    percent_encoded(encode_utf8(text))
}

/// The address that the list of languages is asked from.
pub open spec fn langs_url(token: Seq<char>) -> Seq<char> {
    API_URL@ + "/getLangs?key="@ + token
}

/// The address that a text is looked up at. The languages and the text are
/// encoded; the credential stands as it is.
pub open spec fn lookup_url(token: Seq<char>, lang: Seq<char>, text: Seq<char>) -> Seq<char> {
    API_URL@ + "/lookup?key="@ + token + "&lang="@ + url_encoded(lang) + "&text="@ + url_encoded(
        text,
    )
}

/// Whether a byte stands for itself in a query.
fn unreserved(byte: u8) -> (stands: bool)
    ensures
        stands == is_unreserved(byte),
{
    let digit = 0x30 <= byte && byte <= 0x39;
    let letter = (0x41 <= byte && byte <= 0x5A) || (0x61 <= byte && byte <= 0x7A);
    let mark = byte == 0x2D || byte == 0x2E || byte == 0x5F || byte == 0x7E;
    digit || letter || mark
}

/// The digit for a number below sixteen.
fn hex(nibble: u8) -> (digit: char)
    requires
        nibble < 16,
    ensures
        digit == hex_digit(nibble),
{
    if nibble < 10 {
        (0x30 + nibble) as char
    } else {
        (0x37 + nibble) as char
    }
}

/// Encodes a text for a query.
pub fn url_encode(text: &str) -> (encoded: String)
    ensures
        encoded@ == url_encoded(text@),
{
    let bytes = text.as_bytes();
    let mut encoded = String::new();
    let mut i: usize = 0;
    while i < bytes.len()
        invariant
            i <= bytes@.len(),
            encoded@ == percent_encoded(bytes@.take(i as int)),
        decreases bytes.len() - i,
    {
        let byte = bytes[i];
        assert(bytes@.take(i + 1).drop_last() == bytes@.take(i as int));
        assert(bytes@.take(i + 1).last() == byte);
        if unreserved(byte) {
            push_char(&mut encoded, byte as char);
            assert(encoded@ == percent_encoded(bytes@.take(i as int)) + escaped(byte));
        } else {
            push_char(&mut encoded, '%');
            push_char(&mut encoded, hex(byte / 16));
            push_char(&mut encoded, hex(byte % 16));
            assert(encoded@ == percent_encoded(bytes@.take(i as int)) + escaped(byte));
        }
        i = i + 1;
    }
    assert(bytes@.take(bytes@.len() as int) == bytes@);
    encoded
}

/// The address that the list of languages is asked from.
pub fn build_langs_url(token: &str) -> (url: String)
    ensures
        url@ == langs_url(token@),
{
    let mut url = String::from_str(API_URL);
    url.append("/getLangs?key=");
    url.append(token);
    url
}

/// The address that a text is looked up at.
pub fn build_lookup_url(token: &str, lang: &str, text: &str) -> (url: String)
    ensures
        url@ == lookup_url(token@, lang@, text@),
{
    let lang = url_encode(lang);
    let text = url_encode(text);
    let mut url = String::from_str(API_URL);
    url.append("/lookup?key=");
    url.append(token);
    url.append("&lang=");
    url.append(lang.as_str());
    url.append("&text=");
    url.append(text.as_str());
    url
}

} // verus!
