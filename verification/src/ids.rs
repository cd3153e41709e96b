//! Identifiers and the clock: calls into `uuid` and `chrono`.

use vstd::prelude::*;

use vstd::arithmetic::power::pow;

verus! {

/// The lower-case hexadecimal character of `n` (0 to 15).
pub open spec fn hex_char(n: int) -> char {
    if n < 10 {
        crate::text::digit_char(n)
    } else if n == 10 {
        'a'
    } else if n == 11 {
        'b'
    } else if n == 12 {
        'c'
    } else if n == 13 {
        'd'
    } else if n == 14 {
        'e'
    } else {
        'f'
    }
}

/// The `k`-th hexadecimal digit of `x`, counting from the most significant
/// of 32.
pub open spec fn hex_digit(x: u128, k: int) -> int {
    ((x as int) / pow(16, (31 - k) as nat)) % 16
}

/// The hyphenated form of a UUID, `xxxxxxxx-xxxx-xxxx-xxxx-xxxxxxxxxxxx`,
/// in lower-case hexadecimal, most significant digit first.
pub open spec fn hyphenated(x: u128) -> Seq<char> {
    Seq::new(
        36,
        |i: int|
            if i == 8 || i == 13 || i == 18 || i == 23 {
                '-'
            } else {
                let k = if i < 8 {
                    i
                } else if i < 13 {
                    i - 1
                } else if i < 18 {
                    i - 2
                } else if i < 23 {
                    i - 3
                } else {
                    i - 4
                };
                hex_char(hex_digit(x, k))
            },
    )
}

/// What `uuid::Uuid::parse_str` gives for a text: the UUID's 128-bit value,
/// or the text of the error it reports.
pub uninterp spec fn spec_uuid_parse(s: Seq<char>) -> Result<u128, Seq<char>>;

/// The view of a parse result.
pub open spec fn parse_result_view(r: Result<u128, String>) -> Result<u128, Seq<char>> {
    match r {
        Ok(v) => Ok(v),
        Err(m) => Err(m@),
    }
}

/// Calls `uuid::Uuid::parse_str`. The result is `spec_uuid_parse` of the
/// text: the parsed UUID as its big-endian 128-bit value, or the `Display`
/// text of the `uuid::Error`. The hyphenated lower-case text of a UUID, as
/// `uuid_text` writes it, parses back to the same value (the parser takes
/// 36 characters with hyphens at 8, 13, 18 and 23 and hexadecimal digits
/// elsewhere, in either case). Which other texts parse is left to the name.
#[verifier::external_body]
pub(crate) fn uuid_parse(input: &str) -> (parsed: Result<u128, String>)
    ensures
        parse_result_view(parsed) == spec_uuid_parse(input@),
        forall|u: u128| #[trigger] hyphenated(u) == input@ ==> parsed is Ok && parsed->Ok_0 == u,
{
    match uuid::Uuid::parse_str(input) {
        Ok(u) => Ok(u.as_u128()),
        Err(e) => Err(e.to_string()),
    }
}

/// Calls `to_string` on the UUID whose big-endian value is `id`. Its
/// `Display` writes the hyphenated lower-case form.
#[verifier::external_body]
pub(crate) fn uuid_text(id: u128) -> (text: String)
    ensures
        text@ == hyphenated(id),
{
    uuid::Uuid::from_u128(id).to_string()
}

/// Calls `uuid::Uuid::new_v4`: a random UUID, as its big-endian value.
/// Nothing is promised of the value.
#[verifier::external_body]
pub(crate) fn uuid_new_v4() -> u128 {
    uuid::Uuid::new_v4().as_u128()
}

/// Calls `chrono::Utc::now` and gives the instant in milliseconds since the
/// Unix epoch. Nothing is promised of the value.
#[verifier::external_body]
pub(crate) fn now_millis() -> i64 {
    chrono::Utc::now().timestamp_millis()
}

/// Calls `chrono::Utc::now` and formats the instant with `to_rfc3339`, such
/// as "2024-05-01T12:00:00.123456789+00:00". Nothing is promised of the
/// text.
#[verifier::external_body]
pub(crate) fn now_rfc3339() -> String {
    chrono::Utc::now().to_rfc3339()
}

/// What `chrono::DateTime::<Utc>::from_timestamp_millis` followed by
/// `to_rfc3339` gives for an instant in milliseconds since the Unix epoch:
/// the RFC 3339 text in UTC, or nothing when the instant is out of chrono's
/// range.
pub uninterp spec fn spec_rfc3339_millis(ms: i64) -> Option<Seq<char>>;

/// Formats an instant, given in milliseconds since the Unix epoch, as RFC
/// 3339 text in UTC (`chrono::DateTime::<Utc>::from_timestamp_millis` and
/// `to_rfc3339`). The text is `spec_rfc3339_millis` of the instant.
#[verifier::external_body]
pub(crate) fn rfc3339_of_millis(ms: i64) -> (text: Option<String>)
    ensures
        crate::project::opt_string_view(text) == spec_rfc3339_millis(ms),
{
    match chrono::DateTime::<chrono::Utc>::from_timestamp_millis(ms) {
        Some(instant) => Some(instant.to_rfc3339()),
        None => None,
    }
}

/// The hyphenated text of a UUID is never blank: it holds hyphens.
pub proof fn lemma_hyphenated_not_blank(u: u128)
    ensures
        !crate::text::blank(hyphenated(u)),
{
    assert(hyphenated(u)[8] == '-');
    assert(!crate::text::unicode_whitespace('-'));
}

} // verus!
