//! Pieces of HTTP shared by the adapters: percent-encoding of query
//! values, the text of a status code, and which codes mean success.

use vstd::prelude::*;
use crate::text::dec;

verus! {

/// Whether a character passes percent-encoding unchanged: an ASCII letter
/// or digit, `-`, `.`, `_` or `~`.
pub open spec fn url_safe(c: char) -> bool {
    ('0' <= c && c <= '9') || ('A' <= c && c <= 'Z') || ('a' <= c && c <= 'z') || c == '-' || c == '.' || c == '_'
        || c == '~'
}

/// The bytes of a character in UTF-8.
pub open spec fn utf8_bytes(c: char) -> Seq<nat> {
    let v = c as nat;
    if v < 0x80 {
        seq![v]
    } else if v < 0x800 {
        seq![0xC0 + v / 64, 0x80 + v % 64]
    } else if v < 0x10000 {
        seq![0xE0 + v / 4096, 0x80 + (v / 64) % 64, 0x80 + v % 64]
    } else {
        seq![0xF0 + v / 262144, 0x80 + (v / 4096) % 64, 0x80 + (v / 64) % 64, 0x80 + v % 64]
    }
}

/// An upper-case hexadecimal digit.
pub open spec fn hex_upper(d: nat) -> char {
    if d < 10 {
        crate::text::digit_char(d)
    } else if d == 10 { 'A' } else if d == 11 { 'B' } else if d == 12 { 'C' }
    else if d == 13 { 'D' } else if d == 14 { 'E' } else { 'F' }
}

/// `%` and two upper-case hexadecimal digits of each byte.
pub open spec fn percent_bytes(bs: Seq<nat>) -> Seq<char>
    decreases bs.len(),
{
    if bs.len() == 0 {
        Seq::empty()
    } else {
        percent_bytes(bs.drop_last()) + seq!['%', hex_upper(bs.last() / 16), hex_upper(bs.last() % 16)]
    }
}

/// The percent-encoding of a character: itself where it is safe, else each
/// byte of its UTF-8 encoding as `%XX`.
pub open spec fn char_encoded(c: char) -> Seq<char> {
    if url_safe(c) { seq![c] } else { percent_bytes(utf8_bytes(c)) }
}

/// The percent-encoding of a text, character after character.
pub open spec fn url_encoded(s: Seq<char>) -> Seq<char>
    decreases s.len(),
{
    if s.len() == 0 { Seq::empty() } else { url_encoded(s.drop_last()) + char_encoded(s.last()) }
}

/// `urlencoding::encode`: every byte of the text's UTF-8 encoding is
/// written as `%` and two upper-case hexadecimal digits, but for ASCII
/// letters, digits, `-`, `.`, `_` and `~`, which stay as they are.
#[verifier::external_body]
pub fn url_encode(s: &str) -> (r: String)
    ensures
        r@ == url_encoded(s@),
{
    urlencoding::encode(s).into_owned()
}

/// The reason phrase the HTTP registry gives a status code
/// (`StatusCode::canonical_reason`), where it gives one.
pub uninterp spec fn canonical_reason(code: u16) -> Option<Seq<char>>;

/// The text of a status: its code, a space, and its reason phrase or
/// `<unknown status code>`.
pub open spec fn status_text(code: u16) -> Seq<char> {
    dec(code as nat) + " "@ + match canonical_reason(code) {
        Some(r) => r,
        None => "<unknown status code>"@,
    }
}

/// A status as reqwest displays it (`StatusCode`'s `Display`): the code,
/// a space, and the registered reason phrase or `<unknown status code>`.
/// The phrase itself is named, not spelled out.
#[verifier::external_body]
pub fn status_display(code: u16) -> (s: String)
    requires
        100 <= code <= 999,
    ensures
        s@ == dec(code as nat) + " "@ + match canonical_reason(code) {
            Some(r) => r,
            None => "<unknown status code>"@,
        },
{
    match reqwest::StatusCode::from_u16(code) {
        Ok(status) => status.to_string(),
        Err(_) => String::new(),
    }
}

/// Whether a status code means success (200 to 299).
pub open spec fn is_success(code: u16) -> bool {
    200 <= code <= 299
}

} // verus!
