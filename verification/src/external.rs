//! The calls into other crates. Their bodies are not verified: each contract
//! here is taken from the called crate's source and believed as it stands.
use crate::text::text_view;
use chrono::{DateTime, SecondsFormat};
use vstd::prelude::*;
use vstd::utf8::encode_utf8;

verus! {

/// The instant that an RFC 3339 text denotes, in seconds since the epoch;
/// `None` for a text that is not RFC 3339.
pub uninterp spec fn rfc3339_timestamp(text: Seq<char>) -> Option<int>;

/// The RFC 3339 text, to the second and with `Z` for UTC, of an instant given
/// in seconds since the epoch; `None` outside the calendar's range.
pub uninterp spec fn rfc3339_of_timestamp(seconds: int) -> Option<Seq<char>>;

/// Calls `chrono::DateTime::parse_from_rfc3339` and, on success,
/// `DateTime::timestamp` on what it returned. The result is the named
/// instant of the text, which depends on the text alone; nothing more is
/// claimed of it.
#[verifier::external_body]
pub(crate) fn parse_rfc3339(value: &str) -> (seconds: Option<i64>)
    ensures
        match seconds {
            Some(at) => rfc3339_timestamp(value@) == Some(at as int),
            None => rfc3339_timestamp(value@) is None,
        },
{
    match DateTime::parse_from_rfc3339(value) {
        Ok(at) => Some(at.timestamp()),
        Err(_) => None,
    }
}

/// Calls `chrono::DateTime::from_timestamp` with no nanoseconds and, where
/// that gives a date, `DateTime::to_rfc3339_opts` with whole seconds and `Z`.
/// The result is the named text of the instant, which depends on the instant
/// alone; nothing more is claimed of it.
#[verifier::external_body]
pub(crate) fn format_rfc3339(seconds: i64) -> (text: Option<String>)
    ensures
        text_view(text) == rfc3339_of_timestamp(seconds as int),
{
    match DateTime::from_timestamp(seconds, 0) {
        Some(at) => Some(at.to_rfc3339_opts(SecondsFormat::Secs, true)),
        None => None,
    }
}

/// A byte that a percent-encoded text shows as it is: an ASCII letter or
/// digit, or one of `-`, `.`, `_`, `~`.
pub open spec fn is_unreserved(byte: u8) -> bool {
    (0x30 <= byte && byte <= 0x39) || (0x41 <= byte && byte <= 0x5A) || (0x61 <= byte && byte
        <= 0x7A) || byte == 0x2D || byte == 0x2E || byte == 0x5F || byte == 0x7E
}

/// The upper-case hexadecimal digit for a value below sixteen.
pub open spec fn hex_digit(value: u8) -> char {
    if value < 10 {
        ((0x30 + value) as u8) as char
    } else {
        ((0x41 + value - 10) as u8) as char
    }
}

/// The percent-encoding of a byte string: unreserved bytes as they are,
/// every other byte as `%` and its two hexadecimal digits.
pub open spec fn percent_encoded(bytes: Seq<u8>) -> Seq<char>
    decreases bytes.len(),
{
    if bytes.len() == 0 {
        Seq::empty()
    } else {
        let byte = bytes[0];
        let head = if is_unreserved(byte) {
            seq![byte as char]
        } else {
            seq!['%', hex_digit(byte / 16), hex_digit(byte % 16)]
        };
        head + percent_encoded(bytes.drop_first())
    }
}

/// The percent-encoding of a text's UTF-8 bytes.
pub open spec fn url_encoded(text: Seq<char>) -> Seq<char> {
    percent_encoded(encode_utf8(text))
}

/// Calls `urlencoding::encode` and takes the result as an owned string. The
/// crate encodes the UTF-8 bytes of the text one by one: letters, digits and
/// `-`, `.`, `_`, `~` stay, every other byte becomes `%` and two upper-case
/// hexadecimal digits.
#[verifier::external_body]
pub(crate) fn url_encode(data: &str) -> (encoded: String)
    ensures
        encoded@ == url_encoded(data@),
{
    urlencoding::encode(data).into_owned()
}

} // verus!
