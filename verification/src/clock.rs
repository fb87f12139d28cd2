//! Instants on the UTC time scale, to the second.

use vstd::prelude::*;
use crate::text::two_digits;

verus! {

/// Seconds in a day.
pub const DAY_SECONDS: i64 = 86_400;

/// The first representable second: midnight starting the year -262143.
pub const EARLIEST_SECOND: i64 = -8_334_601_228_800;

/// The last representable second: the one ending the year 262142.
pub const LATEST_SECOND: i64 = 8_210_266_876_799;

/// Whether a count of seconds since 1970-01-01T00:00:00Z names a
/// representable instant.
pub open spec fn representable(secs: int) -> bool {
    EARLIEST_SECOND <= secs <= LATEST_SECOND
}

/// The time of day of an instant as `HH:MM:SS` on a 24-hour clock.
pub open spec fn clock_face(secs: int) -> Seq<char> {
    let second_of_day = secs % (DAY_SECONDS as int);
    two_digits(second_of_day / 3600) + seq![':'] + two_digits((second_of_day % 3600) / 60)
        + seq![':'] + two_digits(second_of_day % 60)
}

/// A second on the UTC time scale, counted from 1970-01-01T00:00:00Z.
///
/// Every value is representable, so its calendar form always exists.
#[derive(Clone, Copy, Debug, PartialEq, Eq, Structural)]
pub struct UtcInstant {
    secs: i64,
}

/// `chrono::DateTime::<Utc>::from_timestamp(secs, 0)` printed with
/// `format("%H:%M:%S")`.
///
/// Not proved here: that chrono builds a date-time for every second between
/// the first of its year -262143 and the last of its year 262142, and that
/// the three fields it prints are the hour, minute and second of the
/// Euclidean remainder of `secs` by a day, each zero-padded to two digits.
#[verifier::external_body]
fn chrono_clock_text(secs: i64) -> (text: String)
    requires
        representable(secs as int),
    ensures
        text@ == clock_face(secs as int),
{
    chrono::DateTime::from_timestamp(secs, 0).unwrap().format("%H:%M:%S").to_string()
}

impl UtcInstant {
    #[verifier::type_invariant]
    spec fn in_range(self) -> bool {
        representable(self.secs as int)
    }

    /// Seconds since 1970-01-01T00:00:00Z.
    pub closed spec fn seconds(self) -> int {
        self.secs as int
    }

    /// The instant `secs` seconds after 1970-01-01T00:00:00Z, if there is a
    /// calendar date for it.
    pub fn from_epoch_seconds(secs: i64) -> (instant: Option<UtcInstant>)
        ensures
            instant is Some <==> representable(secs as int),
            instant matches Some(t) ==> t.seconds() == secs,
    {
        if EARLIEST_SECOND <= secs && secs <= LATEST_SECOND {
            Some(UtcInstant { secs })
        } else {
            None
        }
    }

    /// Seconds since 1970-01-01T00:00:00Z.
    pub fn epoch_seconds(&self) -> (secs: i64)
        ensures
            secs == self.seconds(),
            representable(secs as int),
    {
        proof {
            use_type_invariant(self);
        }
        self.secs
    }

    /// The time of day as `HH:MM:SS`.
    pub fn clock_text(&self) -> (text: String)
        ensures
            text@ == clock_face(self.seconds()),
    {
        proof {
            use_type_invariant(self);
        }
        chrono_clock_text(self.secs)
    }
}

} // verus!
