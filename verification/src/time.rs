//! Points in time and spans of time.

use crate::status;
use crate::status::{UCode, UStatus};
use crate::timestamp::Timestamp;
use vstd::prelude::*;

verus! {

/// The first second of January 1 in the year 262144 BCE, counted from the Unix epoch.
pub const DATE_TIME_FIRST_SECOND: i64 = -8_334_601_228_800;

/// The last second of December 31 in the year 262142 CE, counted from the Unix epoch.
pub const DATE_TIME_LAST_SECOND: i64 = 8_210_266_876_799;

/// Whether there is a date and time of day for a number of seconds and nanoseconds since the Unix
/// epoch. Only the last second of a minute may have a leap second's nanoseconds.
pub open spec fn is_date_time(seconds: int, nanos: int) -> bool {
    &&& DATE_TIME_FIRST_SECOND <= seconds <= DATE_TIME_LAST_SECOND
    &&& 0 <= nanos < 1_000_000_000 || (1_000_000_000 <= nanos < 2_000_000_000 && seconds % 60 == 59)
}

/// Looks for the date and time of day of a number of seconds and nanoseconds since the Unix epoch,
/// and returns those numbers as they are held there.
///
/// Trusted: `chrono::DateTime::from_timestamp` gives a date and time exactly where
/// `is_date_time` holds, and the result's `timestamp` and `timestamp_subsec_nanos` give back the
/// arguments.
#[verifier::external_body]
fn date_time_from_timestamp(seconds: i64, nanos: u32) -> (r: Option<(i64, u32)>)
    ensures
        r is Some <==> is_date_time(seconds as int, nanos as int),
        r is Some ==> r->Some_0 == (seconds, nanos),
{
    let date_time = chrono::DateTime::from_timestamp(seconds, nanos)?;
    Some((date_time.timestamp(), date_time.timestamp_subsec_nanos()))
}

/// Splits a number of milliseconds into seconds and nanoseconds.
///
/// Trusted: `chrono::TimeDelta::milliseconds` makes a span of that many milliseconds, which it
/// cannot do for the least `i64`. The span's `num_seconds` and `subsec_nanos` are its whole
/// seconds, rounded towards zero, and the rest.
#[verifier::external_body]
fn time_delta_milliseconds(milliseconds: i64) -> (r: (i64, i32))
    requires
        milliseconds > i64::MIN,
    ensures
        r.0 * 1_000_000_000 + r.1 == milliseconds * 1_000_000,
        milliseconds >= 0 ==> r.0 >= 0 && 0 <= r.1 < 1_000_000_000,
        milliseconds <= 0 ==> r.0 <= 0 && -1_000_000_000 < r.1 <= 0,
{
    let time_delta = chrono::TimeDelta::milliseconds(milliseconds);
    (time_delta.num_seconds(), time_delta.subsec_nanos())
}

/// A date and time of day, in UTC.
#[derive(Clone, Copy, Debug, PartialEq, Eq, Structural)]
pub struct DateTime {
    seconds: i64,
    nanos: u32,
}

impl View for DateTime {
    type V = (i64, u32);

    /// The seconds and nanoseconds since the Unix epoch.
    closed spec fn view(&self) -> (i64, u32) {
        (self.seconds, self.nanos)
    }
}

impl DateTime {
    #[verifier::type_invariant]
    spec fn valid(self) -> bool {
        is_date_time(self.seconds as int, self.nanos as int)
    }

    /// Makes the date and time that is a number of seconds and nanoseconds after the Unix epoch,
    /// if there is one.
    pub fn from_timestamp(seconds: i64, nanos: u32) -> (r: Option<DateTime>)
        ensures
            r is Some <==> is_date_time(seconds as int, nanos as int),
            r is Some ==> r->Some_0@ == (seconds, nanos),
    {
        match date_time_from_timestamp(seconds, nanos) {
            Some((seconds, nanos)) => Some(DateTime { seconds, nanos }),
            None => None,
        }
    }

    /// Returns the number of seconds since the Unix epoch.
    pub fn timestamp(&self) -> (r: i64)
        ensures
            r == self@.0,
            is_date_time(self@.0 as int, self@.1 as int),
    {
        proof {
            use_type_invariant(self);
        }
        self.seconds
    }

    /// Returns the number of nanoseconds since the last second.
    pub fn timestamp_subsec_nanos(&self) -> (r: u32)
        ensures
            r == self@.1,
            is_date_time(self@.0 as int, self@.1 as int),
    {
        proof {
            use_type_invariant(self);
        }
        self.nanos
    }
}

/// A span of time.
#[derive(Clone, Copy, Debug, PartialEq, Eq, Structural)]
pub struct TimeDelta {
    seconds: i64,
    nanos: i32,
}

impl View for TimeDelta {
    type V = int;

    /// The number of nanoseconds.
    closed spec fn view(&self) -> int {
        self.seconds * 1_000_000_000 + self.nanos
    }
}

impl TimeDelta {
    #[verifier::type_invariant]
    spec fn valid(self) -> bool {
        ||| self.seconds >= 0 && 0 <= self.nanos < 1_000_000_000
        ||| self.seconds <= 0 && -1_000_000_000 < self.nanos <= 0
    }

    /// Makes a span of a number of milliseconds.
    pub fn milliseconds(milliseconds: i64) -> (r: TimeDelta)
        requires
            milliseconds > i64::MIN,
        ensures
            r@ == milliseconds * 1_000_000,
    {
        let (seconds, nanos) = time_delta_milliseconds(milliseconds);
        TimeDelta { seconds, nanos }
    }

    /// Returns the number of whole seconds, rounded towards zero.
    pub fn num_seconds(&self) -> (r: i64)
        ensures
            self@ >= 0 ==> r == self@ / 1_000_000_000,
            self@ < 0 ==> r == -((-self@) / 1_000_000_000),
    {
        proof {
            use_type_invariant(self);
        }
        self.seconds
    }

    /// Returns the number of nanoseconds beyond the whole seconds.
    pub fn subsec_nanos(&self) -> (r: i32)
        ensures
            self@ >= 0 ==> r == self@ % 1_000_000_000,
            self@ < 0 ==> r == -((-self@) % 1_000_000_000),
    {
        proof {
            use_type_invariant(self);
        }
        self.nanos
    }
}

/// The date and time of a point in time on the wire, or why there is none.
pub open spec fn date_time_of_timestamp(timestamp: Timestamp) -> Result<(i64, u32), status::Status> {
    if !(0 <= timestamp.nanos < 1_000_000_000) {
        Err(status::invalid_argument("invalid timestamp: nanos value out of range"@))
    } else if !(DATE_TIME_FIRST_SECOND <= timestamp.seconds <= DATE_TIME_LAST_SECOND) {
        Err(status::invalid_argument("invalid timestamp: seconds value out of range"@))
    } else {
        Ok((timestamp.seconds, timestamp.nanos as u32))
    }
}

/// Converts a point in time on the wire to a date and time.
pub fn protobuf_timestamp_as_chrono_datetime(timestamp: Option<&Timestamp>) -> (r: Result<
    Option<DateTime>,
    UStatus,
>)
    ensures
        match timestamp {
            Some(timestamp) => match date_time_of_timestamp(*timestamp) {
                Ok(date_time) => r is Ok && r->Ok_0 is Some && r->Ok_0->Some_0@ == date_time,
                Err(status) => r is Err && r->Err_0@ == status,
            },
            None => r is Ok && r->Ok_0 is None,
        },
{
    match timestamp {
        Some(timestamp) => {
            if timestamp.nanos < 0 || timestamp.nanos >= 1_000_000_000 {
                return Err(
                    UStatus::fail_with_code(
                        UCode::InvalidArgument,
                        "invalid timestamp: nanos value out of range",
                    ),
                );
            }
            match DateTime::from_timestamp(timestamp.seconds, timestamp.nanos as u32) {
                Some(date_time) => Ok(Some(date_time)),
                None => Err(
                    UStatus::fail_with_code(
                        UCode::InvalidArgument,
                        "invalid timestamp: seconds value out of range",
                    ),
                ),
            }
        },
        None => Ok(None),
    }
}

} // verus!
