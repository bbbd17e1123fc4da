//! Trusted declarations for the outside crates the library computes with.
//!
//! Each wrapper makes exactly one outside call; what Verus believes about it
//! is stated here and nowhere else.  Results that depend on the arguments
//! alone are given uninterpreted names; results that depend on the clock or
//! the machine promise nothing.

use vstd::prelude::*;

use base64::Engine;

verus! {

/// An upper-case hexadecimal digit for `n < 16`.
pub open spec fn up_hex_digit(n: u8) -> u8 {
    if n < 10 {
        (48 + n) as u8
    } else {
        (55 + n) as u8
    }
}

/// The percent-escape of one byte: kept as it is when it is an ASCII
/// alphanumeric or one of `-`, `.`, `_`, `~`; otherwise `%` and two
/// upper-case hexadecimal digits.
pub open spec fn pct_byte(b: u8) -> Seq<u8> {
    if (48 <= b <= 57) || (65 <= b <= 90) || (97 <= b <= 122) || b == 45 || b == 46 || b == 95
        || b == 126 {
        seq![b]
    } else {
        seq![37u8, up_hex_digit(b / 16), up_hex_digit(b % 16)]
    }
}

/// The percent-encoding of a byte string, byte by byte.
pub open spec fn url_encoded_of(s: Seq<u8>) -> Seq<u8>
    decreases s.len(),
{
    if s.len() == 0 {
        Seq::empty()
    } else {
        pct_byte(s[0]) + url_encoded_of(s.drop_first())
    }
}

/// Relies on `urlencoding::encode_binary`: percent-encodes every byte except
/// the ASCII alphanumerics and `-`, `.`, `_`, `~`, with upper-case hex
/// digits, exactly as `url_encoded_of` states.
#[verifier::external_body]
pub fn url_encode(b: &Vec<u8>) -> (r: Vec<u8>)
    ensures
        r@ == url_encoded_of(b@),
{
    urlencoding::encode_binary(b.as_slice()).into_owned().into_bytes()
}

/// The percent-decoding of a byte string; bytes that form no valid escape
/// pass through unchanged.
pub uninterp spec fn url_decoded_of(s: Seq<u8>) -> Seq<u8>;

/// Relies on `urlencoding::decode_binary`: decodes percent escapes and keeps
/// everything else, never failing.
#[verifier::external_body]
pub fn url_decode(b: &Vec<u8>) -> (r: Vec<u8>)
    ensures
        r@ == url_decoded_of(b@),
        b@.len() == 0 ==> r@.len() == 0,
{
    urlencoding::decode_binary(b.as_slice()).into_owned()
}

/// What the standard-alphabet, no-padding base64 decoder makes of a byte
/// string: the decoded bytes, or nothing when the input is not valid base64.
pub uninterp spec fn b64_no_pad_decoded_of(s: Seq<u8>) -> Option<Seq<u8>>;

/// Relies on `base64::engine::general_purpose::STANDARD_NO_PAD`'s `decode`.
#[verifier::external_body]
pub fn b64_decode_no_pad(b: &Vec<u8>) -> (r: Option<Vec<u8>>)
    ensures
        match r {
            Some(v) => b64_no_pad_decoded_of(b@) == Some(v@),
            None => b64_no_pad_decoded_of(b@) is None,
        },
{
    base64::engine::general_purpose::STANDARD_NO_PAD.decode(b.as_slice()).ok()
}

/// The lossy UTF-8 reading of a byte string: invalid sequences replaced,
/// valid input kept; ASCII input passes unchanged.
pub uninterp spec fn utf8_lossy_of(s: Seq<u8>) -> Seq<u8>;

/// Relies on `String::from_utf8_lossy`.
#[verifier::external_body]
pub fn utf8_lossy(b: &Vec<u8>) -> (r: Vec<u8>)
    ensures
        r@ == utf8_lossy_of(b@),
        (forall|i: int| 0 <= i < b@.len() ==> b@[i] < 128) ==> r@ == b@,
{
    String::from_utf8_lossy(b.as_slice()).into_owned().into_bytes()
}

/// Relies on `chrono::Utc::now`: the current time as seconds since the
/// epoch.  Nothing is promised of a clock reading.
#[verifier::external_body]
pub fn now_epoch_seconds() -> i64 {
    chrono::Utc::now().timestamp()
}

/// The epoch seconds encoded by an RFC 3339 timestamp, if the bytes parse as
/// one.
pub uninterp spec fn rfc3339_epoch_of(s: Seq<u8>) -> Option<int>;

/// Relies on `chrono::DateTime::parse_from_rfc3339`.
#[verifier::external_body]
pub fn parse_rfc3339_epoch(s: &Vec<u8>) -> (r: Option<i64>)
    ensures
        match r {
            Some(e) => rfc3339_epoch_of(s@) == Some(e as int),
            None => rfc3339_epoch_of(s@) is None,
        },
{
    let text = match core::str::from_utf8(s.as_slice()) {
        Ok(t) => t,
        Err(_) => return None,
    };
    chrono::DateTime::parse_from_rfc3339(text).ok().map(|dt| dt.timestamp())
}

/// The epoch seconds encoded by a `YYYY-MM-DDTHH:MM:SSZ` timestamp read as
/// UTC, if the bytes parse as one.
pub uninterp spec fn naive_utc_epoch_of(s: Seq<u8>) -> Option<int>;

/// Relies on `chrono::NaiveDateTime::parse_from_str` with the
/// no-fractional-seconds format, read as UTC.
#[verifier::external_body]
pub fn parse_naive_utc_epoch(s: &Vec<u8>) -> (r: Option<i64>)
    ensures
        match r {
            Some(e) => naive_utc_epoch_of(s@) == Some(e as int),
            None => naive_utc_epoch_of(s@) is None,
        },
{
    let text = match core::str::from_utf8(s.as_slice()) {
        Ok(t) => t,
        Err(_) => return None,
    };
    chrono::NaiveDateTime::parse_from_str(text, "%Y-%m-%dT%H:%M:%SZ").ok().map(
        |n| n.and_utc().timestamp(),
    )
}

/// The `YYYY-MM-DDTHH:MM:SSZ` rendering of an epoch second in UTC.
pub uninterp spec fn utc_secs_rfc3339_of(epoch: int) -> Seq<u8>;

/// Relies on `chrono::DateTime::<Utc>::from_timestamp` and `format` with the
/// seconds-precision UTC format; out-of-range seconds give the empty string.
#[verifier::external_body]
pub fn format_utc_rfc3339(epoch: i64) -> (r: Vec<u8>)
    ensures
        r@ == utc_secs_rfc3339_of(epoch as int),
{
    match chrono::DateTime::<chrono::Utc>::from_timestamp(epoch, 0) {
        Some(dt) => dt.format("%Y-%m-%dT%H:%M:%SZ").to_string().into_bytes(),
        None => Vec::new(),
    }
}

/// The microsecond-precision UTC rendering of an epoch second, as stored in
/// the token file's expiry field.
pub uninterp spec fn utc_micros_rfc3339_of(epoch: int) -> Seq<u8>;

/// Relies on `chrono::DateTime::<Utc>::from_timestamp` and `format` with the
/// microsecond-precision UTC format; out-of-range seconds give the empty
/// string.
#[verifier::external_body]
pub fn format_utc_micros_rfc3339(epoch: i64) -> (r: Vec<u8>)
    ensures
        r@ == utc_micros_rfc3339_of(epoch as int),
{
    match chrono::DateTime::<chrono::Utc>::from_timestamp(epoch, 0) {
        Some(dt) => dt.format("%Y-%m-%dT%H:%M:%S%.6fZ").to_string().into_bytes(),
        None => Vec::new(),
    }
}

/// Relies on `chrono::Local::now` and `format`: the current local time in
/// the long prompt form.  The result depends on the clock and the machine's
/// time zone, so nothing is promised of it.
#[verifier::external_body]
pub fn now_local_prompt_form() -> Vec<u8> {
    chrono::Local::now().format("%A, %B %-d, %Y %H:00").to_string().into_bytes()
}

/// Relies on `chrono::Local::now` and `format`: the current local time as
/// `YYYY-MM-DD HH:MM:SS`.  Nothing is promised of a clock reading.
#[verifier::external_body]
pub fn now_local_datetime_form() -> Vec<u8> {
    chrono::Local::now().format("%Y-%m-%d %H:%M:%S").to_string().into_bytes()
}

#[verifier::external_type_specification]
#[verifier::external_body]
pub struct ExJsonValue(serde_json::Value);

#[verifier::external_type_specification]
#[verifier::external_body]
pub struct ExJsonError(serde_json::Error);

/// Whether a byte string parses as a JSON array of arrays of values.
pub uninterp spec fn rows_parse_ok(s: Seq<u8>) -> bool;

/// Relies on `serde_json::from_slice` at type `Vec<Vec<Value>>`: the parsed
/// rows of a JSON array-of-arrays, or the parser's error.
#[verifier::external_body]
pub fn parse_rows(s: &Vec<u8>) -> (r: Result<Vec<Vec<serde_json::Value>>, serde_json::Error>)
    ensures
        r is Ok <==> rows_parse_ok(s@),
{
    serde_json::from_slice::<Vec<Vec<serde_json::Value>>>(s.as_slice())
}

/// Relies on `serde_json::Error`'s display form.  Nothing is promised of the
/// message text.
#[verifier::external_body]
pub fn json_error_text(e: &serde_json::Error) -> Vec<u8> {
    format!("{}", e).into_bytes()
}

} // verus!
