//! The value of a date-time field: a calendar date and a time of day, without
//! a time zone.

use super::json_codec::JsonCodec;
use crate::json::{as_str, string, JsonModel};
use vstd::prelude::*;

verus! {

/// The error of the date-time codec: the document is not the text of a
/// date-time.
#[derive(Debug, PartialEq, Eq)]
pub struct ParseNaiveDateTimeError;

/// A date and a time of day, without a time zone.
#[derive(Debug, Clone, Copy, PartialEq, Eq)]
pub struct NaiveDateTime {
    pub year: i32,
    pub month: u8,
    pub day: u8,
    pub hour: u8,
    pub minute: u8,
    pub second: u8,
    pub nanosecond: u32,
}

/// Whether a year of the proleptic Gregorian calendar is a leap year.
pub open spec fn is_leap_year(year: int) -> bool {
    year % 4 == 0 && (year % 100 != 0 || year % 400 == 0)
}

/// The number of days of a month, for a month from 1 to 12.
pub open spec fn days_in_month(year: int, month: int) -> int {
    if month == 2 {
        if is_leap_year(year) {
            29
        } else {
            28
        }
    } else if month == 4 || month == 6 || month == 9 || month == 11 {
        30
    } else {
        31
    }
}

/// The format of a date-time whose second has no fraction.
pub open spec fn whole_second_format() -> Seq<char> {
    "[year]-[month]-[day]T[hour]:[minute]:[second]"@
}

/// The format of a date-time with a fraction of a second: as many digits as
/// the fraction needs, and at least one.
pub open spec fn fraction_format() -> Seq<char> {
    "[year]-[month]-[day]T[hour]:[minute]:[second].[subsecond digits:1+]"@
}

/// The text with a `Z` at its end: unchanged where it already ends in one, and
/// with one appended where it does not.
pub open spec fn normalized_text(text: Seq<char>) -> Seq<char> {
    if text.len() > 0 && text.last() == 'Z' {
        text
    } else {
        text + seq!['Z']
    }
}

/// The date-time that `time::PrimitiveDateTime::parse` reads from a text under
/// the RFC 3339 format, or nothing where it rejects the text.
pub uninterp spec fn parsed_date_time(text: Seq<char>) -> Option<NaiveDateTime>;

/// The text that `time::PrimitiveDateTime::format` writes for a date-time under
/// a format description (in the syntax of `time::format_description`, version 1).
pub uninterp spec fn date_time_text(value: NaiveDateTime, description: Seq<char>) -> Seq<char>;

impl NaiveDateTime {
    /// A date-time with the given fields.
    pub fn new(
        year: i32,
        month: u8,
        day: u8,
        hour: u8,
        minute: u8,
        second: u8,
        nanosecond: u32,
    ) -> (r: Self)
        ensures
            r == (NaiveDateTime { year, month, day, hour, minute, second, nanosecond }),
    {
        Self { year, month, day, hour, minute, second, nanosecond }
    }

    /// Whether the fields name a day of the calendar and a time of that day,
    /// with a year from -9999 to 9999.
    pub open spec fn is_valid(self) -> bool {
        &&& -9999 <= self.year <= 9999
        &&& 1 <= self.month <= 12
        &&& 1 <= self.day <= days_in_month(self.year as int, self.month as int)
        &&& self.hour < 24
        &&& self.minute < 60
        &&& self.second < 60
        &&& self.nanosecond < 1_000_000_000
    }

    /// Whether the fields name a day of the calendar and a time of that day,
    /// with a year from -9999 to 9999. Only such a date-time can be written
    /// out.
    pub fn check_valid(&self) -> (r: bool)
        ensures
            r == self.is_valid(),
    {
        let leap = self.year % 4 == 0 && (self.year % 100 != 0 || self.year % 400 == 0);
        let days: u8 = if self.month == 2 {
            if leap {
                29
            } else {
                28
            }
        } else if self.month == 4 || self.month == 6 || self.month == 9 || self.month == 11 {
            30
        } else {
            31
        };
        -9999 <= self.year && self.year <= 9999 && 1 <= self.month && self.month <= 12 && 1
            <= self.day && self.day <= days && self.hour < 24 && self.minute < 60 && self.second
            < 60 && self.nanosecond < 1_000_000_000
    }

    /// The format under which the date-time is written: the fraction of the
    /// second is left out when it is zero.
    pub open spec fn format(self) -> Seq<char> {
        if self.nanosecond == 0 {
            whole_second_format()
        } else {
            fraction_format()
        }
    }

    /// The text that the date-time is written as.
    pub open spec fn text(self) -> Seq<char> {
        date_time_text(self, self.format())
    }

    /// What a text is read as: the date-time that the RFC 3339 reader finds in
    /// the text with a `Z` at its end, where it finds one.
    pub open spec fn from_text(text: Seq<char>) -> Option<NaiveDateTime> {
        parsed_date_time(normalized_text(text))
    }

    /// Reads a date-time from a text in the shape
    /// `YYYY-MM-DDTHH:MM:SS[.fraction]`, with or without a `Z` at its end. A
    /// text without one is read as if it had one; no time is converted.
    pub fn parse_str(str: &str) -> (r: Result<Self, ParseNaiveDateTimeError>)
        ensures
            match r {
                Ok(value) => Self::from_text(str@) == Some(value) && value.is_valid()
                    && value.year >= 0 && value.reads_back(),
                Err(_) => Self::from_text(str@) is None,
            },
    {
        let str = normalize(str);
        match parse_rfc3339(str.as_str()) {
            Some(value) => Ok(value),
            None => Err(ParseNaiveDateTimeError),
        }
    }

    /// Whether the date-time is what is read from its own text.
    pub open spec fn reads_back(self) -> bool {
        Self::from_text(self.text()) == Some(self)
    }

    /// Whether the date-time is valid and is what is read from its own text.
    /// That is so for every valid date-time whose year is not negative; the
    /// text of a negative year has a sign, which the reader does not take.
    pub fn is_canonical(&self) -> (r: bool)
        ensures
            r == self.canonical(),
            self.is_valid() && self.year >= 0 ==> r,
    {
        if !self.check_valid() {
            return false;
        }
        let text = self.to_str();
        match Self::parse_str(text.as_str()) {
            Ok(read) => read.year == self.year && read.month == self.month && read.day
                == self.day && read.hour == self.hour && read.minute == self.minute
                && read.second == self.second && read.nanosecond == self.nanosecond,
            Err(_) => false,
        }
    }

    /// Writes the date-time as a text without a time zone. The fraction of the
    /// second is left out when it is zero. Where the year is not negative, the
    /// date-time is what is read from the text.
    pub fn to_str(&self) -> (r: String)
        requires
            self.is_valid(),
        ensures
            r@ == self.text(),
            self.year >= 0 ==> self.reads_back(),
    {
        let format = if self.nanosecond == 0 {
            "[year]-[month]-[day]T[hour]:[minute]:[second]"
        } else {
            "[year]-[month]-[day]T[hour]:[minute]:[second].[subsecond digits:1+]"
        };
        format_date_time(self, format)
    }
}

/// `time::PrimitiveDateTime::parse` with `Rfc3339`, and the fields of the
/// result. Trusted: the outcome is a function of the text alone, named
/// [`parsed_date_time`]. What is read is a day of the calendar and a time of
/// that day, in a year from 0 to 9999, for the reader takes a year of exactly
/// four digits. It is also what the reader finds again in the text that
/// `format` writes for it: four digits for the year, two for each other
/// part, and the digits of the fraction, if any.
#[verifier::external_body]
fn parse_rfc3339(text: &str) -> (r: Option<NaiveDateTime>)
    ensures
        r == parsed_date_time(text@),
        r matches Some(value) ==> value.is_valid() && value.year >= 0,
        r matches Some(value) ==> parsed_date_time(normalized_text(value.text())) == Some(value),
{
    match ::time::PrimitiveDateTime::parse(text, &::time::format_description::well_known::Rfc3339) {
        Ok(pdt) => Some(
            NaiveDateTime {
                year: pdt.year(),
                month: pdt.month() as u8,
                day: pdt.day(),
                hour: pdt.hour(),
                minute: pdt.minute(),
                second: pdt.second(),
                nanosecond: pdt.nanosecond(),
            },
        ),
        Err(_) => None,
    }
}

/// `time::PrimitiveDateTime::format` of the date-time with the given fields,
/// under a format description that `time::format_description::parse_borrowed`
/// reads. Trusted: the text is a function of the fields and the description,
/// named [`date_time_text`]. Where the year is not negative and the
/// description is the one for the date-time (with the fraction exactly when
/// there is one), the RFC 3339 reader finds the same date-time in the text
/// with a `Z` appended: the year is written with four digits and no sign, and
/// the fraction with all the digits it needs.
#[verifier::external_body]
fn format_date_time(value: &NaiveDateTime, description: &str) -> (r: String)
    requires
        value.is_valid(),
        description@ == whole_second_format() || description@ == fraction_format(),
    ensures
        r@ == date_time_text(*value, description@),
        value.year >= 0 && description@ == value.format() ==> parsed_date_time(
            normalized_text(r@),
        ) == Some(*value),
{
    let month = ::time::Month::try_from(value.month).unwrap();
    let date = ::time::Date::from_calendar_date(value.year, month, value.day).unwrap();
    let time = ::time::Time::from_hms_nano(
        value.hour,
        value.minute,
        value.second,
        value.nanosecond,
    ).unwrap();
    let items = ::time::format_description::parse_borrowed::<1>(description).unwrap();
    ::time::PrimitiveDateTime::new(date, time).format(&items).unwrap()
}

impl View for NaiveDateTime {
    type V = NaiveDateTime;

    open spec fn view(&self) -> NaiveDateTime {
        *self
    }
}

impl JsonCodec for NaiveDateTime {
    type Err = ParseNaiveDateTimeError;

    /// A date-time is read from a string. A text that does not end in `Z` is
    /// read as if it did; no time is converted.
    open spec fn decoded(json: JsonModel) -> Result<NaiveDateTime, ParseNaiveDateTimeError> {
        match json {
            JsonModel::String(text) => match NaiveDateTime::from_text(text) {
                Some(value) => Ok(value),
                None => Err(ParseNaiveDateTimeError),
            },
            _ => Err(ParseNaiveDateTimeError),
        }
    }

    /// A date-time is written as a string without a time zone.
    open spec fn encoded(value: NaiveDateTime) -> JsonModel {
        JsonModel::String(value.text())
    }

    open spec fn encodable(&self) -> bool {
        self.is_valid()
    }

    /// A date-time is canonical when it is valid and is what is read from
    /// its own text. [`NaiveDateTime::is_canonical`] tests it.
    open spec fn canonical(&self) -> bool {
        self.is_valid() && self.reads_back()
    }

    fn from_json(value: &serde_json::Value) -> (r: Result<Self, ParseNaiveDateTimeError>) {
        match as_str(value) {
            Some(str) => NaiveDateTime::parse_str(str),
            None => Err(ParseNaiveDateTimeError),
        }
    }

    fn to_json(&self) -> (r: serde_json::Value)
        ensures
            self.year >= 0 ==> self.canonical(),
    {
        string(self.to_str())
    }

    proof fn lemma_encoded_is_not_null(&self) {
    }

    proof fn lemma_round_trip(&self) {
    }
}

/// The text with a `Z` at its end: a text that has none gets one, so that a
/// date-time without a time zone reads as one in UTC.
pub fn normalize(str: &str) -> (r: String)
    ensures
        r@ == normalized_text(str@),
{
    let length = str.unicode_len();
    if length > 0 && str.get_char(length - 1) == 'Z' {
        str.to_owned()
    } else {
        proof {
            reveal_strlit("Z");
            assert("Z"@ =~= seq!['Z']);
        }
        str.to_owned().concat("Z")
    }
}

} // verus!
