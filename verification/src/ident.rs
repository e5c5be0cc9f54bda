//! Project identifiers and entry dates, through the `uuid` and `chrono` crates.
//!
//! An identifier is held as its 128-bit value; a project's entry date as whole
//! seconds since the Unix epoch (UTC).
use vstd::prelude::*;

verus! {

/// What `uuid::Uuid::parse_str` makes of a text: the 128-bit value of the
/// identifier it reads, or nothing when it rejects the text.
pub uninterp spec fn uuid_from_text(s: Seq<char>) -> Option<u128>;

/// The lowercase hexadecimal digit of a value below 16.
pub open spec fn hex_digit(d: nat) -> char {
    if d < 10 {
        (d + 48) as char
    } else {
        (d + 87) as char
    }
}

/// The last `n` hexadecimal digits of `u`, most significant first.
pub open spec fn hex_digits(u: nat, n: nat) -> Seq<char>
    decreases n,
{
    if n == 0 {
        Seq::empty()
    } else {
        hex_digits(u / 16, (n - 1) as nat).push(hex_digit(u % 16))
    }
}

/// The hyphenated form of an identifier, as `uuid::Uuid`'s `Display` writes it:
/// its 32 lowercase hexadecimal digits in groups of 8, 4, 4, 4 and 12 joined by '-'.
pub open spec fn uuid_text(u: u128) -> Seq<char> {
    let h = hex_digits(u as nat, 32);
    h.subrange(0, 8) + seq!['-'] + h.subrange(8, 12) + seq!['-'] + h.subrange(12, 16) + seq!['-']
        + h.subrange(16, 20) + seq!['-'] + h.subrange(20, 32)
}

proof fn lemma_hex_digits_len(u: nat, n: nat)
    ensures
        hex_digits(u, n).len() == n,
    decreases n,
{
    if n > 0 {
        lemma_hex_digits_len(u / 16, (n - 1) as nat);
    }
}

/// The hyphenated form of an identifier has 36 characters, with '-' at
/// positions 8, 13, 18 and 23.
pub proof fn lemma_uuid_text_shape(u: u128)
    ensures
        uuid_text(u).len() == 36,
        uuid_text(u)[8] == '-',
        uuid_text(u)[13] == '-',
        uuid_text(u)[18] == '-',
        uuid_text(u)[23] == '-',
{
    lemma_hex_digits_len(u as nat, 32);
}

/// What `chrono` writes with the pattern "%Y-%m-%d" for the UTC instant `secs`
/// seconds after the Unix epoch; nothing where `DateTime::from_timestamp` has no such instant.
pub uninterp spec fn utc_date_text(secs: i64) -> Option<Seq<char>>;

/// Calls `uuid::Uuid::parse_str` and keeps the parsed identifier's 128-bit
/// value (`Uuid::as_u128`). Claimed: the result is `uuid_from_text` of the
/// text; and, as `try_parse` shows, only texts of 32, 36, 38 or 45 bytes are
/// read, all of them ASCII (hex digits, '-', braces, "urn:uuid:"), so a text
/// read has that many characters.
#[verifier::external_body]
pub(crate) fn parse_uuid(s: &str) -> (r: Option<u128>)
    ensures
        r == uuid_from_text(s@),
        r is Some ==> (s@.len() == 32 || s@.len() == 36 || s@.len() == 38 || s@.len() == 45),
{
    match uuid::Uuid::parse_str(s) {
        Ok(u) => Some(u.as_u128()),
        Err(_) => None,
    }
}

/// Writes the identifier with value `u` (`Uuid::from_u128`, big-endian bytes)
/// with `Uuid`'s `Display`. Claimed, as the crate's formatter (`format_hyphenated`)
/// and documentation show: the text is `uuid_text(u)`, and `Uuid::parse_str`
/// reads it back as `u`.
#[verifier::external_body]
pub(crate) fn uuid_to_string(u: u128) -> (r: String)
    ensures
        r@ == uuid_text(u),
        uuid_from_text(r@) == Some(u),
{
    uuid::Uuid::from_u128(u).to_string()
}

/// Calls `chrono::DateTime::<Utc>::from_timestamp(secs, 0)` and formats the
/// instant with "%Y-%m-%d". Claimed: the result is `utc_date_text(secs)`.
#[verifier::external_body]
pub(crate) fn format_utc_date(secs: i64) -> (r: Option<String>)
    ensures
        match r {
            Some(s) => utc_date_text(secs) == Some(s@),
            None => utc_date_text(secs) is None,
        },
{
    match chrono::DateTime::<chrono::Utc>::from_timestamp(secs, 0) {
        Some(d) => Some(d.format("%Y-%m-%d").to_string()),
        None => None,
    }
}

/// What `chrono`'s `NaiveDateTime` `Display` writes for the UTC instant `secs`
/// seconds and `nanos` nanoseconds after the Unix epoch; nothing where
/// `DateTime::from_timestamp` has no such instant.
pub uninterp spec fn utc_datetime_text(secs: i64, nanos: u32) -> Option<Seq<char>>;

/// Calls `chrono::DateTime::<Utc>::from_timestamp(secs, nanos)` and writes its
/// `naive_utc()` with `Display`. Claimed: the result is `utc_datetime_text(secs, nanos)`.
#[verifier::external_body]
pub(crate) fn format_utc_datetime(secs: i64, nanos: u32) -> (r: Option<String>)
    ensures
        match r {
            Some(s) => utc_datetime_text(secs, nanos) == Some(s@),
            None => utc_datetime_text(secs, nanos) is None,
        },
{
    match chrono::DateTime::<chrono::Utc>::from_timestamp(secs, nanos) {
        Some(d) => Some(d.naive_utc().to_string()),
        None => None,
    }
}

} // verus!
