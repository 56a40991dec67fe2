//! Wall-clock time of day in UTC, derived from seconds since the Unix epoch by
//! remainder arithmetic alone. No calendar is involved and leap seconds are not
//! modelled.

use std::time::{Duration, SystemTime, SystemTimeError, UNIX_EPOCH};
use vstd::prelude::*;

verus! {

pub const SECONDS_IN_MINUTE: u64 = 60;

pub const SECONDS_IN_HOUR: u64 = 3600;

/// A time of day: hour, minute and second on a 24-hour clock.
#[derive(Clone, Copy, Debug, PartialEq, Eq, Structural)]
pub struct TimeTriplet {
    pub hour: u8,
    pub minute: u8,
    pub second: u8,
}

/// The system clock reports an instant that lies before the Unix epoch.
#[derive(Clone, Copy, Debug, PartialEq, Eq, Structural)]
pub struct ClockBeforeEpochFault;

impl TimeTriplet {
    /// The three fields name a time that exists on a 24-hour clock.
    pub open spec fn wf(self) -> bool {
        self.hour < 24 && self.minute < 60 && self.second < 60
    }

    /// Seconds that have passed since midnight at this time of day.
    pub open spec fn second_of_day(self) -> nat {
        (self.hour * 3600 + self.minute * 60 + self.second) as nat
    }

    /// The UTC time of day at `seconds` whole seconds after the epoch.
    pub open spec fn of_seconds(seconds: nat) -> TimeTriplet {
        TimeTriplet {
            hour: ((seconds / 3600) % 24) as u8,
            minute: ((seconds / 60) % 60) as u8,
            second: (seconds % 60) as u8,
        }
    }

    /// Builds a time of day from its parts, or `None` when a part is out of
    /// range.
    pub fn new(hour: u8, minute: u8, second: u8) -> (r: Option<TimeTriplet>)
        ensures
            r is Some <==> hour < 24 && minute < 60 && second < 60,
            r matches Some(t) ==> t.wf() && t.hour == hour && t.minute == minute && t.second
                == second,
    {
        if hour < 24 && minute < 60 && second < 60 {
            Some(TimeTriplet { hour, minute, second })
        } else {
            None
        }
    }

    /// Reduces seconds since the epoch to the time of day. Whole days drop out:
    /// the result counts exactly the seconds that are left after them.
    pub fn from_seconds(seconds: u64) -> (t: TimeTriplet)
        ensures
            t == Self::of_seconds(seconds as nat),
            t.wf(),
            t.second_of_day() == seconds as nat % 86400,
    {
        proof {
            Self::lemma_of_seconds(seconds as nat);
        }
        let hour: u64 = seconds / SECONDS_IN_HOUR % 24;
        let minute: u64 = seconds / SECONDS_IN_MINUTE % 60;
        let second: u64 = seconds % 60;
        TimeTriplet { hour: hour as u8, minute: minute as u8, second: second as u8 }
    }

    /// The time of day for a clock reading: `Some` holds the whole seconds
    /// since the epoch, `None` stands for a clock that is set before it.
    pub fn from_reading(reading: Option<u64>) -> (r: Result<TimeTriplet, ClockBeforeEpochFault>)
        ensures
            reading matches Some(seconds) ==> r == Ok::<TimeTriplet, ClockBeforeEpochFault>(
                Self::of_seconds(seconds as nat),
            ),
            reading is None ==> r == Err::<TimeTriplet, ClockBeforeEpochFault>(
                ClockBeforeEpochFault,
            ),
    {
        match reading {
            Some(seconds) => Ok(Self::from_seconds(seconds)),
            None => Err(ClockBeforeEpochFault),
        }
    }

    /// Every time of day computed from a count of seconds is well formed and
    /// lies exactly as many seconds after midnight as remain once whole days
    /// are taken away.
    pub proof fn lemma_of_seconds(seconds: nat)
        ensures
            Self::of_seconds(seconds).wf(),
            Self::of_seconds(seconds).second_of_day() == seconds % 86400,
    {
        let h = (seconds / 3600) % 24;
        let m = (seconds / 60) % 60;
        let s = seconds % 60;
        let days = seconds / 3600 / 24;
        assert(seconds / 3600 == seconds / 60 / 60) by (nonlinear_arith);
        assert(seconds % 86400 == h * 3600 + m * 60 + s) by (nonlinear_arith)
            requires
                seconds == days * 86400 + (h * 3600 + m * 60 + s),
                0 <= h * 3600 + m * 60 + s < 86400,
        ;
    }

    /// Crossing a day boundary wraps the clock: a full day later the time of
    /// day is the same.
    pub proof fn lemma_day_wrap(seconds: nat)
        ensures
            Self::of_seconds(seconds + 86400) == Self::of_seconds(seconds),
    {
        let later = seconds + 86400;
        assert(later / 3600 == seconds / 3600 + 24);
        assert(later / 60 == seconds / 60 + 1440);
    }

    /// Within the first day the triplet reads the count back: no two instants
    /// of one day share a time of day.
    pub proof fn lemma_first_day(seconds: nat)
        requires
            seconds < 86400,
        ensures
            Self::of_seconds(seconds).second_of_day() == seconds,
    {
        Self::lemma_of_seconds(seconds);
    }
}

/// `std::time::SystemTime`, an instant of the system clock.
#[verifier::external_type_specification]
#[verifier::external_body]
pub struct ExSystemTime(SystemTime);

/// `std::time::SystemTimeError`, the answer for an instant before the one
/// it is measured from.
#[verifier::external_type_specification]
#[verifier::external_body]
pub struct ExSystemTimeError(SystemTimeError);

/// `SystemTime::now` reads the system clock. Nothing is claimed of the
/// instant it returns.
pub assume_specification[ SystemTime::now ]() -> SystemTime;

/// `Duration::as_secs` gives the whole seconds of a span. Nothing is claimed
/// of the number.
pub assume_specification[ Duration::as_secs ](span: &Duration) -> u64;

/// `SystemTime::duration_since`, measured from `UNIX_EPOCH`: the span from the
/// epoch to `instant`, or an error when `instant` lies before the epoch.
/// Nothing is claimed of which of the two comes back.
#[verifier::external_body]
fn since_epoch(instant: &SystemTime) -> Result<Duration, SystemTimeError> {
    instant.duration_since(UNIX_EPOCH)
}

/// Reads the system clock and reduces it to the UTC time of day. The clock is
/// read anew on every call. A clock that is set before the epoch gives a
/// fault, never a made-up time.
pub fn utc_now() -> (r: Result<TimeTriplet, ClockBeforeEpochFault>)
    ensures
        r matches Ok(t) ==> t.wf(),
{
    let now = SystemTime::now();
    let reading = match since_epoch(&now) {
        Ok(elapsed) => Some(elapsed.as_secs()),
        Err(_) => None,
    };
    proof {
        if let Some(seconds) = reading {
            TimeTriplet::lemma_of_seconds(seconds as nat);
        }
    }
    TimeTriplet::from_reading(reading)
}

} // verus!
