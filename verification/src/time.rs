//! Points in time, as the host's calendar can hold them.

use crate::error::Error;
use vstd::prelude::*;

verus! {

/// Whether the calendar has a date and time for `seconds` since the epoch
/// with `nanoseconds` beyond them.
pub uninterp spec fn on_calendar(seconds: int, nanoseconds: int) -> bool;

/// Calls `chrono::DateTime::from_timestamp` and says whether it yields a
/// date. That depends on the two numbers alone. A billion nanoseconds or
/// more stand for a leap second, which is taken only in the last second of a
/// minute and never reaches two billion.
#[verifier::external_body]
fn calendar_holds(seconds: i64, nanoseconds: u32) -> (held: bool)
    ensures
        held == on_calendar(seconds as int, nanoseconds as int),
        held ==> nanoseconds < 2_000_000_000,
        held && nanoseconds >= 1_000_000_000 ==> seconds as int % 60 == 59,
{
    chrono::DateTime::from_timestamp(seconds, nanoseconds).is_some()
}

/// A point in time that the calendar holds.
#[derive(Clone, Copy, Debug, PartialEq, Eq)]
pub struct Timestamp {
    seconds: i64,
    nanoseconds: u32,
}

impl Timestamp {
    /// The seconds since the epoch.
    pub closed spec fn secs(self) -> int {
        self.seconds as int
    }

    /// The nanoseconds beyond the seconds.
    pub closed spec fn nanos(self) -> int {
        self.nanoseconds as int
    }

    #[verifier::type_invariant]
    spec fn is_on_calendar(self) -> bool {
        on_calendar(self.seconds as int, self.nanoseconds as int)
    }

    /// The point in time of `seconds` since the epoch and `nanoseconds`
    /// beyond them, or the invalid-time error where the calendar has none.
    pub fn new(seconds: i64, nanoseconds: u32) -> (made: Result<Timestamp, Error>)
        ensures
            made is Ok <==> on_calendar(seconds as int, nanoseconds as int),
            made matches Ok(t) ==> t.secs() == seconds && t.nanos() == nanoseconds,
            made matches Err(e) ==> e == Error::InvalidTime,
    {
        if calendar_holds(seconds, nanoseconds) {
            Ok(Timestamp { seconds, nanoseconds })
        } else {
            Err(Error::InvalidTime)
        }
    }

    /// The seconds since the epoch.
    pub fn seconds(&self) -> (seconds: i64)
        ensures
            seconds == self.secs(),
    {
        self.seconds
    }

    /// The nanoseconds beyond the seconds.
    pub fn nanoseconds(&self) -> (nanoseconds: u32)
        ensures
            nanoseconds == self.nanos(),
    {
        self.nanoseconds
    }

    /// The second of the minute, from 0 to 59.
    pub fn second(&self) -> (second: u32)
        ensures
            second == self.secs() % 60,
            second < 60,
    {
        let r = self.seconds % 60;
        if r < 0 {
            (r + 60) as u32
        } else {
            r as u32
        }
    }
}

/// The time of a commit made at `seconds` since the epoch.
pub fn commit_time(seconds: i64) -> (time: Result<Timestamp, Error>)
    ensures
        time is Ok <==> on_calendar(seconds as int, 0),
        time matches Ok(t) ==> t.secs() == seconds && t.nanos() == 0,
        time matches Err(e) ==> e == Error::InvalidTime,
{
    Timestamp::new(seconds, 0)
}

} // verus!
