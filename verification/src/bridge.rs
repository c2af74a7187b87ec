//! The calls that the library makes into other crates. Verus takes the
//! contract of each on trust: every one of them names what the call returns
//! and claims that the result is a function of the arguments, but for the
//! time of day, which a few lines can state: there the text itself is
//! stated.

use vstd::prelude::*;
use crate::text::digit_char;

verus! {

/// A moment, as seconds and nanoseconds since 1970-01-01 00:00:00 UTC.
#[derive(Debug, Clone, Copy, PartialEq, Eq, Structural)]
pub struct Timestamp {
    pub secs: i64,
    pub nanos: u32,
}

/// What `bytesize::ByteSize`'s `Display` writes for a byte count.
pub uninterp spec fn size_text(bytes: u64) -> Seq<char>;

/// Whether `chrono::DateTime::from_timestamp` accepts a moment: its day lies
/// in a year from -262143 to 262142, and its nanoseconds stay below a
/// thousand millions, or below twice that in the last second of a minute,
/// where they stand for a leap second.
pub open spec fn is_moment(secs: i64, nanos: u32) -> bool {
    -8_334_601_228_800 <= secs <= 8_210_266_876_799 && nanos < 2_000_000_000 && (nanos
        < 1_000_000_000 || secs as int % 60 == 59)
}

/// A number below 100 in two digits.
pub open spec fn two_digits(v: int) -> Seq<char> {
    seq![digit_char((v / 10) as nat), digit_char((v % 10) as nat)]
}

/// The time of day of a moment in UTC as `HH:MM:SS`. The seconds read 60
/// within a leap second, which is where the nanoseconds reach a thousand
/// millions.
pub open spec fn time_of_day(secs: i64, nanos: u32) -> Seq<char> {
    let since_midnight = secs as int % 86_400;
    two_digits(since_midnight / 3_600) + seq![':'] + two_digits(since_midnight / 60 % 60)
        + seq![':'] + two_digits(since_midnight % 60 + nanos as int / 1_000_000_000)
}

/// What `Display` of `chrono::DateTime<Utc>` writes for a moment that
/// `chrono::DateTime::from_timestamp` accepts.
pub uninterp spec fn moment_text(secs: i64, nanos: u32) -> Seq<char>;

/// What `Debug` of `str` writes for a text: the text in double quotes, with
/// escapes.
pub uninterp spec fn quoted(text: Seq<char>) -> Seq<char>;

/// Whether the regular expression `pattern` matches somewhere in `text`, or
/// `None` where `regex::Regex::new` refuses the pattern.
pub uninterp spec fn regex_match(pattern: Seq<char>, text: Seq<char>) -> Option<bool>;

/// What `str::to_lowercase` gives for a text: each character in its
/// lower-case form by Unicode's tables, which may be more than one character.
pub uninterp spec fn lowercase(text: Seq<char>) -> Seq<char>;

/// What `str::to_uppercase` gives for a text: each character in its
/// upper-case form by Unicode's tables, which may be more than one character.
pub uninterp spec fn uppercase(text: Seq<char>) -> Seq<char>;

/// Calls `str::to_lowercase`. The contract claims that the result depends on
/// the text alone.
#[verifier::external_body]
pub(crate) fn to_lowercase(text: &str) -> (r: String)
    ensures
        r@ == lowercase(text@),
{
    text.to_lowercase()
}

/// Calls `str::to_uppercase`. The contract claims that the result depends on
/// the text alone.
#[verifier::external_body]
pub(crate) fn to_uppercase(text: &str) -> (r: String)
    ensures
        r@ == uppercase(text@),
{
    text.to_uppercase()
}

/// Calls `Display` of `bytesize::ByteSize`. The contract claims that the text
/// depends on the byte count alone.
#[verifier::external_body]
pub(crate) fn format_size(bytes: u64) -> (r: String)
    ensures
        r@ == size_text(bytes),
{
    bytesize::ByteSize(bytes).to_string()
}

/// Calls `chrono::DateTime::from_timestamp` and formats the moment with
/// `%H:%M:%S`. The contract claims which moments `chrono` accepts, and that
/// such a moment is written as its time of day in UTC, each part in two
/// digits; `None` stands for a moment that `chrono` does not accept.
#[verifier::external_body]
pub(crate) fn format_clock(at: Timestamp) -> (r: Option<String>)
    ensures
        r is Some <==> is_moment(at.secs, at.nanos),
        r matches Some(text) ==> text@ == time_of_day(at.secs, at.nanos),
{
    match chrono::DateTime::from_timestamp(at.secs, at.nanos) {
        Some(moment) => Some(moment.format("%H:%M:%S").to_string()),
        None => None,
    }
}

/// Calls `chrono::DateTime::from_timestamp` and `Display` of the moment. The
/// contract claims which moments `chrono` accepts, and that the text of such
/// a moment depends on the two numbers alone; `None` stands for a moment
/// that `chrono` does not accept.
#[verifier::external_body]
pub(crate) fn format_moment(at: Timestamp) -> (r: Option<String>)
    ensures
        r is Some <==> is_moment(at.secs, at.nanos),
        r matches Some(text) ==> text@ == moment_text(at.secs, at.nanos),
{
    match chrono::DateTime::from_timestamp(at.secs, at.nanos) {
        Some(moment) => Some(moment.to_string()),
        None => None,
    }
}

/// Calls `Debug` of `str`. The contract claims that the text depends on the
/// argument alone.
#[verifier::external_body]
pub(crate) fn quote(text: &str) -> (r: String)
    ensures
        r@ == quoted(text@),
{
    format!("{:?}", text)
}

/// Calls `regex::Regex::new` and, where it accepts the pattern,
/// `regex::Regex::is_match`. The contract claims that the outcome depends on
/// the two texts alone.
#[verifier::external_body]
pub(crate) fn search(pattern: &str, text: &str) -> (r: Option<bool>)
    ensures
        r == regex_match(pattern@, text@),
{
    match regex::Regex::new(pattern) {
        Ok(re) => Some(re.is_match(text)),
        Err(_) => None,
    }
}

} // verus!
