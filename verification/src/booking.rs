//! The flight booking form of the demo panel: two date fields, a choice
//! between a one-way and a return flight, and the rule that says when the
//! form may be sent.
//!
//! Dates are read by `chrono`. What it makes of a text is not proved here;
//! the rules of the form are, for whatever it makes of it.

use vstd::prelude::*;
use vstd::string::*;
use crate::display::Paint;

verus! {

/// The error that `chrono` reports for a text that it cannot read as a date.
#[verifier::external_type_specification]
#[verifier::external_body]
pub struct ExParseError(chrono::ParseError);

/// The date that `chrono::NaiveDate::parse_from_str` reads from a text with
/// the format `%Y-%m-%d`, as year, month and day of the month; `None` where
/// it reports an error.
pub uninterp spec fn date_of_text(text: Seq<char>) -> Option<(i32, u32, u32)>;

/// A day of the calendar.
#[derive(Debug, Copy, Clone, PartialEq, Eq, Structural)]
pub struct CalendarDay {
    pub year: i32,
    /// The month, counted from 1.
    pub month: u32,
    /// The day of the month, counted from 1.
    pub day: u32,
}

/// Why a field holds no date.
#[derive(Debug, Copy, Clone, PartialEq, Eq, Structural)]
pub enum DateError {
    /// The text is no date in the form year-month-day.
    Unreadable,
}

/// A date field after it was read.
#[derive(Debug, Copy, Clone, PartialEq, Eq)]
pub struct DateCheck {
    /// The date that the field holds.
    pub date: Result<CalendarDay, DateError>,
    /// The background of the field: red where it holds no date.
    pub paint: Paint,
}

/// The kind of flight that the form asks for.
#[derive(Debug, Copy, Clone, PartialEq, Eq, Structural)]
pub enum Trip {
    OneWay,
    Return,
}

/// The state of the form after a change.
#[derive(Debug, Copy, Clone, PartialEq, Eq, Structural)]
pub struct BookingForm {
    /// Whether the field of the return date can be edited.
    pub return_active: bool,
    /// The background of the field of the start date.
    pub start_paint: Paint,
    /// The background of the field of the return date, where it was read.
    pub return_paint: Option<Paint>,
    /// Whether the form may be sent.
    pub can_book: bool,
}

impl CalendarDay {
    /// Whether this day is `other` or comes before it.
    pub open spec fn not_after(self, other: CalendarDay) -> bool {
        self.year < other.year || (self.year == other.year && (self.month < other.month || (
        self.month == other.month && self.day <= other.day)))
    }

    /// Whether this day is `other` or comes before it.
    pub fn is_not_after(&self, other: &CalendarDay) -> (b: bool)
        ensures
            b == self.not_after(*other),
    {
        if self.year != other.year {
            self.year < other.year
        } else if self.month != other.month {
            self.month < other.month
        } else {
            self.day <= other.day
        }
    }
}

/// The day that a text holds, if it holds one.
pub open spec fn day_of_text(text: Seq<char>) -> Option<CalendarDay> {
    match date_of_text(text) {
        Some((year, month, day)) => Some(CalendarDay { year, month, day }),
        None => None,
    }
}

/// The check of a field that holds `day`, or no date.
pub open spec fn check_of(day: Option<CalendarDay>) -> DateCheck {
    match day {
        Some(d) => DateCheck { date: Ok(d), paint: Paint::Field },
        None => DateCheck { date: Err(DateError::Unreadable), paint: Paint::Red },
    }
}

/// The state of the form for a kind of flight and the two days that the
/// fields hold.
///
/// For a one-way flight the return field is locked and not looked at, and
/// the form may be sent when the start field holds a date. For a return
/// flight both fields are read, and the form may be sent when both hold a
/// date and the return is not before the start.
pub open spec fn form_for(
    trip: Trip,
    start: Option<CalendarDay>,
    back: Option<CalendarDay>,
) -> BookingForm {
    match trip {
        Trip::OneWay => BookingForm {
            return_active: false,
            start_paint: check_of(start).paint,
            return_paint: None,
            can_book: start is Some,
        },
        Trip::Return => BookingForm {
            return_active: true,
            start_paint: check_of(start).paint,
            return_paint: Some(check_of(back).paint),
            can_book: start is Some && back is Some && start->0.not_after(back->0),
        },
    }
}

/// The text that confirms a booking.
pub open spec fn confirmation(trip: Trip, start: Seq<char>, back: Seq<char>) -> Seq<char> {
    match trip {
        Trip::OneWay => "You have booked a one-way flight for "@ + start + "."@,
        Trip::Return => "You have booked a return flight from "@ + start + " to "@ + back,
    }
}

/// Calls `chrono::NaiveDate::parse_from_str` with the format `%Y-%m-%d` and
/// takes year, month and day out of the date with the methods of
/// `chrono::Datelike`. Trusted: the result is what `date_of_text` names, and
/// an error exactly where that is `None`.
#[verifier::external_body]
fn parse_year_month_day(text: &str) -> (r: Result<CalendarDay, chrono::ParseError>)
    ensures
        r is Ok <==> date_of_text(text@) is Some,
        r matches Ok(d) ==> date_of_text(text@) == Some((d.year, d.month, d.day)),
{
    match chrono::NaiveDate::parse_from_str(text, "%Y-%m-%d") {
        Ok(date) => Ok(
            CalendarDay {
                year: chrono::Datelike::year(&date),
                month: chrono::Datelike::month(&date),
                day: chrono::Datelike::day(&date),
            },
        ),
        Err(e) => Err(e),
    }
}

/// The check of a field from what the reading of its text gave.
pub fn checked_date(parsed: Result<CalendarDay, chrono::ParseError>) -> (check: DateCheck)
    ensures
        check == check_of(
            match parsed {
                Ok(d) => Some(d),
                Err(_) => None,
            },
        ),
{
    match parsed {
        Ok(d) => DateCheck { date: Ok(d), paint: Paint::Field },
        Err(_) => DateCheck { date: Err(DateError::Unreadable), paint: Paint::Red },
    }
}

/// Reads a date field: the date that its text holds, and the background
/// that shows whether it holds one.
pub fn get_date(text: &str) -> (check: DateCheck)
    ensures
        check == check_of(day_of_text(text@)),
{
    checked_date(parse_year_month_day(text))
}

/// The kind of flight that the entry `index` of the choice stands for: the
/// first entry is the one-way flight.
pub fn trip_of_choice(index: i32) -> (trip: Trip)
    ensures
        trip == if index == 0 {
            Trip::OneWay
        } else {
            Trip::Return
        },
{
    if index == 0 {
        Trip::OneWay
    } else {
        Trip::Return
    }
}

/// The background of a field that holds `day`, or no date.
pub fn field_paint(day: &Option<CalendarDay>) -> (paint: Paint)
    ensures
        paint == check_of(*day).paint,
{
    match day {
        Some(_) => Paint::Field,
        None => Paint::Red,
    }
}

/// The state of the form from the kind of flight and the days that the two
/// fields hold. The return field is looked at for a return flight only.
pub fn booking_form(trip: Trip, start: Option<CalendarDay>, back: Option<CalendarDay>) -> (form:
    BookingForm)
    ensures
        form == form_for(trip, start, back),
{
    match trip {
        Trip::OneWay => BookingForm {
            return_active: false,
            start_paint: field_paint(&start),
            return_paint: None,
            can_book: start.is_some(),
        },
        Trip::Return => {
            let can_book = match (start, back) {
                (Some(s), Some(b)) => s.is_not_after(&b),
                _ => false,
            };
            BookingForm {
                return_active: true,
                start_paint: field_paint(&start),
                return_paint: Some(field_paint(&back)),
                can_book,
            }
        },
    }
}

/// The day of a field that was read, if it holds one.
pub fn day_of(check: &DateCheck) -> (day: Option<CalendarDay>)
    ensures
        day == match check.date {
            Ok(d) => Some(d),
            Err(_) => None,
        },
{
    match check.date {
        Ok(d) => Some(d),
        Err(_) => None,
    }
}

/// The form after a change of the choice or of a date field. Only the
/// fields that the kind of flight looks at are read.
pub fn booking_update(trip: Trip, start_text: &str, return_text: &str) -> (form: BookingForm)
    ensures
        form == form_for(trip, day_of_text(start_text@), day_of_text(return_text@)),
{
    let start = day_of(&get_date(start_text));
    match trip {
        Trip::OneWay => booking_form(trip, start, None),
        Trip::Return => booking_form(trip, start, day_of(&get_date(return_text))),
    }
}

/// The text that confirms the booking of the flight.
pub fn booking_message(trip: Trip, start_text: &str, return_text: &str) -> (msg: String)
    ensures
        msg@ == confirmation(trip, start_text@, return_text@),
{
    match trip {
        Trip::OneWay => {
            let mut msg = String::from_str("You have booked a one-way flight for ");
            msg.append(start_text);
            msg.append(".");
            msg
        },
        Trip::Return => {
            let mut msg = String::from_str("You have booked a return flight from ");
            msg.append(start_text);
            msg.append(" to ");
            msg.append(return_text);
            msg
        },
    }
}

} // verus!
