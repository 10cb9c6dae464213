//! Calendar dates: their order in a listing and their long English form.

use crate::text::{decimal, push_decimal};
use vstd::prelude::*;
use vstd::string::StringExecFns;

verus! {

/// A calendar date without a time of day.
#[derive(Clone, Copy, Debug, PartialEq, Eq, Structural)]
pub struct Date {
    pub year: u16,
    pub month: u8,
    pub day: u8,
}

/// What a date-time value holds: its calendar date, if it has one, and
/// whether it has a time of day and an offset from UTC.
#[derive(Clone, Copy, Debug, PartialEq, Eq)]
pub struct DateTimeParts {
    pub date: Option<Date>,
    pub has_time: bool,
    pub has_offset: bool,
}

impl DateTimeParts {
    /// The day that the value names, where it is a calendar date with neither
    /// a time of day nor an offset; `None` for any other date-time.
    pub open spec fn plain_date(self) -> Option<Date> {
        if self.has_time || self.has_offset {
            None
        } else {
            self.date
        }
    }

    /// The day that the value names, where it is a calendar date alone.
    pub fn as_plain_date(&self) -> (r: Option<Date>)
        ensures
            r == self.plain_date(),
    {
        if self.has_time || self.has_offset {
            None
        } else {
            self.date
        }
    }
}

impl Date {
    /// Whether `self` is a later day than `other`: by year, then month, then day.
    pub open spec fn later_than(self, other: Date) -> bool {
        ||| self.year > other.year
        ||| self.year == other.year && self.month > other.month
        ||| self.year == other.year && self.month == other.month && self.day > other.day
    }

    /// Whether `self` is a later day than `other`.
    pub fn is_later_than(&self, other: &Date) -> (r: bool)
        ensures
            r == self.later_than(*other),
    {
        if self.year != other.year {
            self.year > other.year
        } else if self.month != other.month {
            self.month > other.month
        } else {
            self.day > other.day
        }
    }
}

/// Whether a document dated `a` is listed strictly ahead of one dated `b`:
/// later dates come first, and every date comes ahead of no date.
pub open spec fn listed_ahead(a: Option<Date>, b: Option<Date>) -> bool {
    match (a, b) {
        (Some(x), Some(y)) => x.later_than(y),
        (Some(_), None) => true,
        (None, _) => false,
    }
}

/// `listed_ahead` orders dates strictly: nothing is ahead of itself, ahead of
/// ahead is ahead, and of two that differ one is ahead of the other. So two
/// documents tie exactly if they have the same date, or both have none.
pub proof fn lemma_listed_ahead_orders(a: Option<Date>, b: Option<Date>, c: Option<Date>)
    ensures
        !listed_ahead(a, a),
        listed_ahead(a, b) && listed_ahead(b, c) ==> listed_ahead(a, c),
        a != b ==> listed_ahead(a, b) || listed_ahead(b, a),
{
}

/// Decides `listed_ahead`.
pub fn is_listed_ahead(a: &Option<Date>, b: &Option<Date>) -> (r: bool)
    ensures
        r == listed_ahead(*a, *b),
{
    match (a, b) {
        (Some(x), Some(y)) => x.is_later_than(y),
        (Some(_), None) => true,
        (None, _) => false,
    }
}

/// The English name of month `month`, empty outside 1 to 12.
pub open spec fn month_name(month: u8) -> Seq<char> {
    if month == 1 {
        "January"@
    } else if month == 2 {
        "February"@
    } else if month == 3 {
        "March"@
    } else if month == 4 {
        "April"@
    } else if month == 5 {
        "May"@
    } else if month == 6 {
        "June"@
    } else if month == 7 {
        "July"@
    } else if month == 8 {
        "August"@
    } else if month == 9 {
        "September"@
    } else if month == 10 {
        "October"@
    } else if month == 11 {
        "November"@
    } else if month == 12 {
        "December"@
    } else {
        ""@
    }
}

/// The ordinal ending written after day `day`. It goes by the last digit
/// alone, so the eleventh is written `11st`.
pub open spec fn ordinal_suffix(day: u8) -> Seq<char> {
    if day % 10 == 1 {
        "st"@
    } else if day % 10 == 2 {
        "nd"@
    } else if day % 10 == 3 {
        "rd"@
    } else {
        "th"@
    }
}

/// The long English form of a date, such as `May 1st, 2024`.
pub open spec fn date_english(date: Date) -> Seq<char> {
    month_name(date.month) + " "@ + decimal(date.day as nat) + ordinal_suffix(date.day) + ", "@
        + decimal(date.year as nat)
}

fn month_str(month: u8) -> (s: &'static str)
    ensures
        s@ == month_name(month),
{
    match month {
        1 => "January",
        2 => "February",
        3 => "March",
        4 => "April",
        5 => "May",
        6 => "June",
        7 => "July",
        8 => "August",
        9 => "September",
        10 => "October",
        11 => "November",
        12 => "December",
        _ => "",
    }
}

fn suffix_str(day: u8) -> (s: &'static str)
    ensures
        s@ == ordinal_suffix(day),
{
    match day % 10 {
        1 => "st",
        2 => "nd",
        3 => "rd",
        _ => "th",
    }
}

/// Appends the long English form of `date` to `out`.
pub fn push_date_english(out: &mut String, date: &Date)
    ensures
        final(out)@ == old(out)@ + date_english(*date),
{
    out.append(month_str(date.month));
    out.append(" ");
    push_decimal(out, date.day as u16);
    out.append(suffix_str(date.day));
    out.append(", ");
    push_decimal(out, date.year);
}

/// Writes a date in long English form: month name, day with its ordinal
/// ending, a comma, and the year.
pub fn date_to_english(date: &Date) -> (s: String)
    ensures
        s@ == date_english(*date),
{
    let mut s = String::new();
    push_date_english(&mut s, date);
    s
}

} // verus!
