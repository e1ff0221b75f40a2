use std::fmt::Write;
use vstd::prelude::*;

verus! {

/// How an instant is written in a reply: year, month, day, hour, minute and
/// second, in UTC.
pub const FORMAT: &'static str = "%Y-%m-%d %H:%M:%S";

/// What chrono writes for the second `seconds` of the Unix epoch, in UTC,
/// under a format: the text, or nothing where the second lies outside the
/// years chrono knows or the format cannot be written.
pub uninterp spec fn chrono_format(seconds: int, format: Seq<char>) -> Option<Seq<char>>;

/// What chrono reads out of a text under a format: the second of the Unix
/// epoch that the text names as a date and time without zone, or the text
/// of its error.
pub uninterp spec fn chrono_parse(text: Seq<char>, format: Seq<char>) -> Result<int, Seq<char>>;

/// A text or nothing, by its characters.
pub open spec fn text_option(r: Option<String>) -> Option<Seq<char>> {
    match r {
        Some(text) => Some(text@),
        None => None,
    }
}

/// A second or a failure's text.
pub open spec fn second_result(r: Result<i64, String>) -> Result<int, Seq<char>> {
    match r {
        Ok(seconds) => Ok(seconds as int),
        Err(text) => Err(text@),
    }
}

/// Calls `chrono::DateTime::from_timestamp` and writes the instant through
/// `DateTime::format`. Writing goes through `write!`, so that a format that
/// chrono cannot write gives `None`.
#[verifier::external_body]
fn format_utc(seconds: i64, format: &str) -> (r: Option<String>)
    ensures
        text_option(r) == chrono_format(seconds as int, format@),
{
    let instant = chrono::DateTime::from_timestamp(seconds, 0)?;
    let mut out = String::new();
    match write!(out, "{}", instant.format(format)) {
        Ok(()) => Some(out),
        Err(_) => None,
    }
}

/// Calls `chrono::NaiveDateTime::parse_from_str` and takes the `timestamp`
/// of the result as an instant of UTC; an error by its `Display` text.
#[verifier::external_body]
fn parse_utc(text: &str, format: &str) -> (r: Result<i64, String>)
    ensures
        second_result(r) == chrono_parse(text@, format@),
{
    match chrono::NaiveDateTime::parse_from_str(text, format) {
        Ok(instant) => Ok(instant.and_utc().timestamp()),
        Err(e) => Err(format!("{e}")),
    }
}

/// Writes an instant as it stands in a reply.
pub fn serialize(date: i64) -> (r: Option<String>)
    ensures
        text_option(r) == chrono_format(date as int, FORMAT@),
{
    format_utc(date, FORMAT)
}

/// Reads an instant as it stands in a request.
pub fn deserialize(text: &str) -> (r: Result<i64, String>)
    ensures
        second_result(r) == chrono_parse(text@, FORMAT@),
{
    parse_utc(text, FORMAT)
}

} // verus!
