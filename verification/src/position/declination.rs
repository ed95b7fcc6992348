//! The magnetic declination at a place and time: the mean of what two
//! geomagnetic field models give.
//!
//! The models and the averaging work on real numbers and are the host's. The
//! library takes the time, a count of seconds since the start of 1970 in
//! UTC, apart into the calendar fields that the models are asked with, asks
//! both models with the same place and fields, and returns the mean of their
//! two answers.
use chrono::DateTime;
use chrono::Datelike;
use chrono::Timelike;
use vstd::prelude::*;

verus! {

/// A place on the reference ellipsoid: latitude and longitude in degrees,
/// altitude in metres, each as the bit pattern of a single-precision value.
#[derive(Clone, Copy, Debug, PartialEq, Eq, Structural)]
pub struct Geodetic {
    pub latitude: u32,
    pub longitude: u32,
    pub altitude: u32,
}

/// The calendar fields of a time of day on a date.
#[derive(Clone, Copy, Debug, PartialEq, Eq, Structural)]
pub struct CivilTime {
    pub year: i32,
    pub month: i32,
    pub day: i32,
    pub hour: i32,
    pub minute: i32,
    pub second: i32,
}

impl CivilTime {
    /// Every field but the year lies in its calendar range.
    pub open spec fn in_range(self) -> bool {
        &&& 1 <= self.month <= 12
        &&& 1 <= self.day <= 31
        &&& 0 <= self.hour <= 23
        &&& 0 <= self.minute <= 59
        &&& 0 <= self.second <= 59
    }
}

/// The year of the UTC date that lies `seconds` after the start of 1970, as
/// `chrono::Datelike::year` gives it.
pub uninterp spec fn utc_year(seconds: i64) -> i32;

/// The month of that date, as `chrono::Datelike::month` gives it.
pub uninterp spec fn utc_month(seconds: i64) -> i32;

/// The day of the month of that date, as `chrono::Datelike::day` gives it.
pub uninterp spec fn utc_day(seconds: i64) -> i32;

/// The hour of that time of day, as `chrono::Timelike::hour` gives it.
pub uninterp spec fn utc_hour(seconds: i64) -> i32;

/// The minute of that time of day, as `chrono::Timelike::minute` gives it.
pub uninterp spec fn utc_minute(seconds: i64) -> i32;

/// The second of that time of day, as `chrono::Timelike::second` gives it.
pub uninterp spec fn utc_second(seconds: i64) -> i32;

/// The calendar fields of the UTC time that lies `seconds` after the start
/// of 1970.
pub open spec fn utc_fields(seconds: i64) -> CivilTime {
    CivilTime {
        year: utc_year(seconds),
        month: utc_month(seconds),
        day: utc_day(seconds),
        hour: utc_hour(seconds),
        minute: utc_minute(seconds),
        second: utc_second(seconds),
    }
}

/// First second of the year 1, counted from the start of 1970.
pub const FIRST_SECOND: i64 = -62_135_596_800;

/// Last second of the year 9999, counted from the start of 1970.
pub const LAST_SECOND: i64 = 253_402_300_799;

/// Makes the UTC time with `chrono::DateTime::from_timestamp` and reads its
/// calendar fields with the accessors of `chrono::Datelike` and
/// `chrono::Timelike`.
///
/// `from_timestamp` has a result for every time whose date chrono can hold,
/// which reaches far beyond the years 1 to 9999 on both sides; that much is
/// claimed here and no more. The accessors number months from 1 to 12, days
/// from 1 to 31, hours from 0 to 23, minutes and seconds from 0 to 59. The
/// fields depend on `seconds` alone.
#[verifier::external_body]
fn fields_at(seconds: i64) -> (fields: Option<CivilTime>)
    ensures
        FIRST_SECOND <= seconds <= LAST_SECOND ==> fields.is_some(),
        fields.is_some() ==> fields.unwrap().year == utc_year(seconds),
        fields.is_some() ==> fields.unwrap().month == utc_month(seconds),
        fields.is_some() ==> fields.unwrap().day == utc_day(seconds),
        fields.is_some() ==> fields.unwrap().hour == utc_hour(seconds),
        fields.is_some() ==> fields.unwrap().minute == utc_minute(seconds),
        fields.is_some() ==> fields.unwrap().second == utc_second(seconds),
        fields.is_some() ==> fields.unwrap().in_range(),
{
    match DateTime::from_timestamp(seconds, 0) {
        Some(t) => Some(
            CivilTime {
                year: t.year(),
                month: t.month() as i32,
                day: t.day() as i32,
                hour: t.hour() as i32,
                minute: t.minute() as i32,
                second: t.second() as i32,
            },
        ),
        None => None,
    }
}

/// The mean of what the two models give for `fields` at `pos`.
///
/// `reference_model` is asked first, then `epoch_model`, both with the same
/// place and fields. Each answers with a declination in degrees, as the bit
/// pattern of a double-precision value. `mean` is handed the two answers in
/// that order; its result, the mean in radians as the bit pattern of a
/// single-precision value, is returned. A model that has no answer for the
/// date does not return, so there is no fallback to the other one.
pub fn mean_declination<M1, M2, A>(
    pos: Geodetic,
    fields: CivilTime,
    reference_model: M1,
    epoch_model: M2,
    mean: A,
) -> (declination: u32) where
    M1: FnOnce(Geodetic, CivilTime) -> u64,
    M2: FnOnce(Geodetic, CivilTime) -> u64,
    A: FnOnce(u64, u64) -> u32,

    requires
        call_requires(reference_model, (pos, fields)),
        call_requires(epoch_model, (pos, fields)),
        forall|first: u64, second: u64| call_requires(mean, (first, second)),
    ensures
        exists|first: u64, second: u64|
            {
                &&& #[trigger] call_ensures(reference_model, (pos, fields), first)
                &&& #[trigger] call_ensures(epoch_model, (pos, fields), second)
                &&& call_ensures(mean, (first, second), declination)
            },
{
    let first = reference_model(pos, fields);
    let second = epoch_model(pos, fields);
    mean(first, second)
}

/// The magnetic declination at `pos` at the UTC time that lies `seconds`
/// after the start of 1970: the mean, as [`mean_declination`] forms it, of
/// the two models asked with the calendar fields of that time.
///
/// There is a result for every time in the years 1 to 9999. A time whose
/// date cannot be held has none, and then no model is asked.
pub fn calc_magnetic_declination<M1, M2, A>(
    pos: Geodetic,
    seconds: i64,
    reference_model: M1,
    epoch_model: M2,
    mean: A,
) -> (declination: Option<u32>) where
    M1: FnOnce(Geodetic, CivilTime) -> u64,
    M2: FnOnce(Geodetic, CivilTime) -> u64,
    A: FnOnce(u64, u64) -> u32,

    requires
        forall|fields: CivilTime|
            fields.in_range() ==> call_requires(reference_model, (pos, fields)),
        forall|fields: CivilTime| fields.in_range() ==> call_requires(epoch_model, (pos, fields)),
        forall|first: u64, second: u64| call_requires(mean, (first, second)),
    ensures
        FIRST_SECOND <= seconds <= LAST_SECOND ==> declination.is_some(),
        declination.is_some() ==> utc_fields(seconds).in_range() && exists|
            first: u64,
            second: u64,
        |
            {
                &&& #[trigger] call_ensures(reference_model, (pos, utc_fields(seconds)), first)
                &&& #[trigger] call_ensures(epoch_model, (pos, utc_fields(seconds)), second)
                &&& call_ensures(mean, (first, second), declination.unwrap())
            },
{
    match fields_at(seconds) {
        Some(fields) => Some(mean_declination(pos, fields, reference_model, epoch_model, mean)),
        None => None,
    }
}

} // verus!
