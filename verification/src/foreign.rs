//! The calls that the library makes into other crates, and into parts of the
//! standard library that have no contract yet. Verus takes the contracts in
//! this file as given: each says what the function behind it is relied on to
//! do.

use vstd::arithmetic::power::pow;
use vstd::prelude::*;

use crate::text::hex_digit;

verus! {

/// `String::push` of the standard library: the character is appended at the end.
pub assume_specification[ String::push ](s: &mut String, ch: char)
    ensures
        final(s)@ == old(s)@.push(ch),
;

/// What `chrono::NaiveDateTime::parse_from_str` reads from `text` under the
/// `strftime` pattern `format`, as the seconds from 1970-01-01 00:00:00 to the
/// date and time read (the value `chrono::DateTime::<Utc>::timestamp` gives for
/// it); `None` where the parse fails.
pub uninterp spec fn parsed_timestamp(text: Seq<char>, format: Seq<char>) -> Option<i64>;

/// Calls `chrono::NaiveDateTime::parse_from_str` and hands back the date and
/// time read as a Unix timestamp, taking them as UTC. The parse looks at
/// nothing but its two arguments, and fails with an error, never a panic, on a
/// text or a pattern that it cannot use.
#[verifier::external_body]
pub(crate) fn parse_timestamp(text: &str, format: &str) -> (seconds: Option<i64>)
    ensures
        seconds == parsed_timestamp(text@, format@),
{
    match chrono::NaiveDateTime::parse_from_str(text, format) {
        Ok(moment) => Some(moment.and_utc().timestamp()),
        Err(_) => None,
    }
}

/// The text that `String::from_utf8_lossy` of the standard library makes of
/// `bytes`: their characters where they are UTF-8, and otherwise the same with
/// the replacement character in the place of every run of bytes that is not.
pub uninterp spec fn lossy_utf8(bytes: Seq<u8>) -> Seq<char>;

/// Calls `String::from_utf8_lossy` and owns the result. Bytes that are UTF-8
/// come back as the text that they encode.
#[verifier::external_body]
pub(crate) fn lossy_text(bytes: &Vec<u8>) -> (text: String)
    ensures
        text@ == lossy_utf8(bytes@),
        vstd::utf8::valid_utf8(bytes@) ==> text@ == vstd::utf8::decode_utf8(bytes@),
{
    String::from_utf8_lossy(bytes).into_owned()
}

/// The hexadecimal digit of `id` at place `k`, counted from the highest of
/// its 32 digits.
pub open spec fn uuid_digit(id: u128, k: int) -> char {
    hex_digit((id as int / pow(16, (31 - k) as nat)) % 16)
}

/// The 32 hexadecimal digits of `id`, highest first, in lower case.
pub open spec fn uuid_digits(id: u128) -> Seq<char> {
    Seq::new(32, |k: int| uuid_digit(id, k))
}

/// The usual notation of a UUID: its 32 hexadecimal digits in groups of 8, 4,
/// 4, 4 and 12 with hyphens between them.
pub open spec fn hyphenated(id: u128) -> Seq<char> {
    let digits = uuid_digits(id);
    digits.subrange(0, 8) + seq!['-'] + digits.subrange(8, 12) + seq!['-'] + digits.subrange(
        12,
        16,
    ) + seq!['-'] + digits.subrange(16, 20) + seq!['-'] + digits.subrange(20, 32)
}

/// What `uuid::Uuid::parse_str` reads from `text`, as the 128-bit value that
/// `uuid::Uuid::as_u128` gives for it; `None` where the text is no UUID in any
/// notation that the parser takes.
pub uninterp spec fn parsed_uuid(text: Seq<char>) -> Option<u128>;

/// Calls `uuid::Uuid::new_v4` for a random UUID and hands back its 128-bit
/// value. The value is never 0: the bits of the version are set in it.
#[verifier::external_body]
pub(crate) fn random_uuid() -> (id: u128)
    ensures
        id != 0,
{
    uuid::Uuid::new_v4().as_u128()
}

/// Formats the UUID of the 128-bit value `id` as `uuid::Uuid` displays it:
/// hyphenated, in lower case.
#[verifier::external_body]
pub(crate) fn uuid_text(id: u128) -> (text: String)
    ensures
        text@ == hyphenated(id),
{
    uuid::Uuid::from_u128(id).to_string()
}

/// Calls `uuid::Uuid::parse_str` and hands back the 128-bit value of the UUID
/// read.
#[verifier::external_body]
pub(crate) fn parse_uuid(text: &str) -> (id: Option<u128>)
    ensures
        id == parsed_uuid(text@),
{
    match uuid::Uuid::parse_str(text) {
        Ok(id) => Some(id.as_u128()),
        Err(_) => None,
    }
}

/// The SHA-256 digest of `data`, as `sha2::Sha256` computes it: 32 bytes.
pub uninterp spec fn sha256_of(data: Seq<u8>) -> Seq<u8>;

/// Calls `sha2::Sha256::digest`, which hashes `data` in one go, and hands back
/// the 32 bytes of the digest.
#[verifier::external_body]
pub(crate) fn sha256_digest(data: &Vec<u8>) -> (digest: Vec<u8>)
    ensures
        digest@ == sha256_of(data@),
        digest.len() == 32,
{
    <sha2::Sha256 as sha2::Digest>::digest(data).to_vec()
}

/// `data` in hexadecimal notation: two digits for every byte, the higher half
/// of the byte first, in lower case.
pub open spec fn hex_of(data: Seq<u8>) -> Seq<char> {
    Seq::new(
        2 * data.len(),
        |i: int|
            hex_digit(
                if i % 2 == 0 {
                    data[i / 2] as int / 16
                } else {
                    data[i / 2] as int % 16
                },
            ),
    )
}

/// Calls `hex::encode`, which writes every byte as two hexadecimal digits in
/// lower case.
#[verifier::external_body]
pub(crate) fn hex_text(data: &Vec<u8>) -> (text: String)
    ensures
        text@ == hex_of(data@),
{
    hex::encode(data)
}

/// Calls `String::from_utf8` of the standard library on a copy of `bytes`: the
/// text that they encode, if they are UTF-8.
#[verifier::external_body]
pub(crate) fn utf8_text(bytes: &Vec<u8>) -> (text: Option<String>)
    ensures
        text is Some == vstd::utf8::valid_utf8(bytes@),
        text matches Some(t) ==> t@ == vstd::utf8::decode_utf8(bytes@),
{
    String::from_utf8(bytes.clone()).ok()
}

/// Calls `std::path::Path::is_dir`: whether there is, at this moment, a
/// directory at `path` that the process can see. Nothing is promised of the
/// answer.
#[verifier::external_body]
pub(crate) fn path_is_dir(path: &str) -> (found: bool) {
    std::path::Path::new(path).is_dir()
}

/// Calls `sanitize_filename::sanitize`, which takes out of a file name what a
/// file system may not accept. What it takes out depends on the system that
/// the agent is built for. On every system it only takes characters out, and
/// puts none in: the result is never longer than the name. And on every
/// system it takes out the slashes, so that the result names nothing in
/// another directory.
#[verifier::external_body]
pub(crate) fn sanitized(name: &str) -> (clean: String)
    ensures
        clean@.len() <= name@.len(),
        !clean@.contains('/'),
{
    sanitize_filename::sanitize(name)
}

/// Whether the text has a match for the pattern, as the crate `regex` reads
/// the pattern and searches the text; `None` for a pattern that it refuses.
pub uninterp spec fn regex_match(pattern: Seq<char>, text: Seq<char>) -> Option<bool>;

/// Compiles `pattern` with `regex::Regex::new` and asks
/// `regex::Regex::is_match` whether `text` has a match for it.
#[verifier::external_body]
pub(crate) fn regex_is_match(pattern: &str, text: &str) -> (found: Option<bool>)
    ensures
        found == regex_match(pattern@, text@),
{
    match regex::Regex::new(pattern) {
        Ok(re) => Some(re.is_match(text)),
        Err(_) => None,
    }
}

} // verus!
