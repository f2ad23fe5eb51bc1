//! Calendar values from `chrono`, carried through the library untouched, and
//! the two calls that make them: reading the clock and reading a date from
//! text.
use vstd::prelude::*;

verus! {

/// `chrono::NaiveDate`, a calendar date without a time zone. Nothing is known
/// of a value but whether it equals another.
#[verifier::external_type_specification]
#[verifier::external_body]
pub struct ExNaiveDate(chrono::NaiveDate);

/// `chrono::NaiveDateTime`, a date and a time of day without a time zone.
/// Nothing is known of a value but whether it equals another.
#[verifier::external_type_specification]
#[verifier::external_body]
pub struct ExNaiveDateTime(chrono::NaiveDateTime);

/// `chrono::format::ParseError`, which says why a text could not be read.
#[verifier::external_type_specification]
#[verifier::external_body]
pub struct ExParseError(chrono::format::ParseError);

/// What `chrono::NaiveDate::parse_from_str` makes of `text` under `format`:
/// the date it reads, or `None` where it reports an error. It depends on the
/// two texts alone.
pub uninterp spec fn naive_date_parsed(text: Seq<char>, format: Seq<char>) -> Option<
    chrono::NaiveDate,
>;

/// Reads the machine's clock: `chrono::Local::now()`, then
/// `DateTime::naive_local` on what it returned. The value depends on when and
/// where the call is made, so nothing is promised of it. `chrono` gives up
/// where the clock stands before 1970 or beyond the dates it can hold.
#[verifier::external_body]
pub(crate) fn local_now() -> (now: chrono::NaiveDateTime) {
    chrono::Local::now().naive_local()
}

/// Calls `chrono::NaiveDate::parse_from_str`. The contract claims only that
/// the outcome is the one named by [`naive_date_parsed`]: a date where that
/// is `Some`, an error where it is `None`.
#[verifier::external_body]
fn parse_naive_date(text: &str, format: &str) -> (parsed: Result<
    chrono::NaiveDate,
    chrono::format::ParseError,
>)
    ensures
        match parsed {
            Ok(date) => naive_date_parsed(text@, format@) == Some(date),
            Err(_) => naive_date_parsed(text@, format@).is_none(),
        },
{
    chrono::NaiveDate::parse_from_str(text, format)
}

/// The text was not a calendar date written as year, month and day.
#[derive(Debug, Clone, Copy, PartialEq, Eq)]
pub struct InvalidDate;

/// The format in which dates are typed: year, month, day, with hyphens
/// between them.
pub open spec fn date_format() -> Seq<char> {
    seq!['%', 'Y', '-', '%', 'm', '-', '%', 'd']
}

/// The date that a typed text stands for, given what `chrono` made of it: an
/// error where `chrono` read no date.
pub open spec fn typed_date(parsed: Option<chrono::NaiveDate>) -> Result<
    chrono::NaiveDate,
    InvalidDate,
> {
    match parsed {
        Some(date) => Ok(date),
        None => Err(InvalidDate),
    }
}

/// Reads a date typed as year, month and day with hyphens between them, as
/// in `1990-07-24`. What counts as such a date is for `chrono` to say.
pub fn parse_date(text: &str) -> (date: Result<chrono::NaiveDate, InvalidDate>)
    ensures
        date == typed_date(naive_date_parsed(text@, date_format())),
{
    let format = "%Y-%m-%d";
    proof {
        reveal_strlit("%Y-%m-%d");
        assert(format@ =~= date_format());
    }
    match parse_naive_date(text, format) {
        Ok(date) => Ok(date),
        Err(_) => Err(InvalidDate),
    }
}

} // verus!
