//! Instants in UTC, as `chrono` represents them, and the calls into `chrono`
//! that read the clock, shift an instant by whole days and format it.

use vstd::prelude::*;

verus! {

/// The earliest second that `chrono` can represent: -262143-01-01T00:00:00Z.
pub open spec fn utc_min_seconds() -> int {
    -8334601228800
}

/// The last second that `chrono` can represent: +262142-12-31T23:59:59Z.
pub open spec fn utc_max_seconds() -> int {
    8210266876799
}

/// Whether `chrono` accepts this many seconds since the Unix epoch and this
/// many nanoseconds as an instant: the second must lie in its range, and a
/// nanosecond count of a second or more marks a leap second, which may only
/// follow the 59th second of a minute.
pub open spec fn utc_accepts(seconds: int, nanos: int) -> bool {
    &&& utc_min_seconds() <= seconds <= utc_max_seconds()
    &&& 0 <= nanos
    &&& (nanos < 1_000_000_000 || (nanos < 2_000_000_000 && seconds % 60 == 59))
}

/// What an instant holds: seconds since the Unix epoch and nanoseconds.
pub struct UtcInstant {
    pub seconds: int,
    pub nanos: int,
}

/// An instant in UTC that `chrono` can represent.
#[derive(Clone, Copy, Debug, PartialEq, Eq)]
pub struct UtcDateTime {
    pub(crate) seconds: i64,
    pub(crate) nanos: u32,
}

impl View for UtcDateTime {
    type V = UtcInstant;

    closed spec fn view(&self) -> UtcInstant {
        UtcInstant { seconds: self.seconds as int, nanos: self.nanos as int }
    }
}

impl UtcDateTime {
    #[verifier::type_invariant]
    closed spec fn inv(self) -> bool {
        utc_accepts(self.seconds as int, self.nanos as int)
    }

    /// The instant with these seconds and nanoseconds since the Unix epoch,
    /// as `chrono`'s `DateTime::from_timestamp` builds it; `None` where
    /// `chrono` refuses them.
    pub fn from_timestamp(seconds: i64, nanos: u32) -> (r: Option<UtcDateTime>)
        ensures
            r is Some <==> utc_accepts(seconds as int, nanos as int),
            r matches Some(t) ==> t@ == (UtcInstant { seconds: seconds as int, nanos: nanos as int }),
    {
        if seconds < -8334601228800 || seconds > 8210266876799 {
            return None;
        }
        if nanos >= 2_000_000_000 {
            return None;
        }
        if nanos >= 1_000_000_000 {
            match seconds.checked_rem_euclid(60) {
                Some(r) => {
                    if r != 59 {
                        return None;
                    }
                },
                None => {
                    return None;
                },
            }
        }
        Some(UtcDateTime { seconds, nanos })
    }

    /// Seconds since the Unix epoch.
    pub fn timestamp(&self) -> (s: i64)
        ensures
            s == self@.seconds,
            utc_accepts(self@.seconds, self@.nanos),
    {
        proof {
            use_type_invariant(self);
        }
        self.seconds
    }

    /// Nanoseconds past the second (a leap second counts beyond 999,999,999).
    pub fn timestamp_subsec_nanos(&self) -> (n: u32)
        ensures
            n == self@.nanos,
            utc_accepts(self@.seconds, self@.nanos),
    {
        proof {
            use_type_invariant(self);
        }
        self.nanos
    }
}


/// The specifiers that a plain `strftime` pattern may use: year, month, day,
/// hour, minute and second, each of which `chrono` renders for every instant
/// it can represent.
pub open spec fn strftime_field(c: char) -> bool {
    c == 'Y' || c == 'm' || c == 'd' || c == 'H' || c == 'M' || c == 'S'
}

/// A `strftime` pattern in which every `%` introduces one of the fields of
/// `strftime_field` and every other character stands for itself.
pub open spec fn plain_strftime(p: Seq<char>) -> bool {
    forall|i: int| 0 <= i < p.len() && #[trigger] p[i] == '%' ==> i + 1 < p.len() && strftime_field(p[i + 1])
}

/// The text that `chrono` renders for the instant with these seconds and
/// nanoseconds under a `strftime` pattern.
pub uninterp spec fn utc_strftime(seconds: int, nanos: int, pattern: Seq<char>) -> Seq<char>;

/// The instant `chrono` reaches from `t` by adding `days` whole days of
/// 86,400 seconds. An instant that is not a leap second keeps its
/// nanoseconds and moves by the days. A leap second (nanoseconds of a second
/// or more) stays as it is for no days; otherwise `chrono` leaves the leap
/// second first, keeping the second for a move forward and passing to the
/// following second for a move back, and keeps the nanoseconds past it.
pub open spec fn day_shift(t: UtcInstant, days: int) -> UtcInstant {
    if t.nanos < 1_000_000_000 || days == 0 {
        UtcInstant { seconds: t.seconds + 86400 * days, nanos: t.nanos }
    } else if days > 0 {
        UtcInstant { seconds: t.seconds + 86400 * days, nanos: t.nanos - 1_000_000_000 }
    } else {
        UtcInstant { seconds: t.seconds + 1 + 86400 * days, nanos: t.nanos - 1_000_000_000 }
    }
}

/// What a reading of the system clock can be: an instant since the Unix
/// epoch that `chrono` represents and that is not a leap second.
pub open spec fn clock_reading(t: UtcInstant) -> bool {
    &&& 0 <= t.seconds
    &&& t.nanos < 1_000_000_000
    &&& utc_accepts(t.seconds, t.nanos)
}

/// The current time, read from the system clock through `chrono::Utc::now`.
/// The clock is outside the library, so nothing ties the result to an input;
/// `chrono` builds it from a `std::time::Duration` since the epoch, whose
/// nanosecond part is below one second.
#[verifier::external_body]
pub(crate) fn utc_now() -> (t: UtcDateTime)
    ensures
        utc_accepts(t@.seconds, t@.nanos),
        0 <= t@.seconds,
        t@.nanos < 1_000_000_000,
{
    let now = chrono::Utc::now();
    UtcDateTime { seconds: now.timestamp(), nanos: now.timestamp_subsec_nanos() }
}

impl UtcDateTime {
    /// `chrono`'s `DateTime::checked_sub_signed` with a delta of `days`
    /// whole days (`TimeDelta::try_days`): the instant `day_shift` reaches
    /// by `-days` days, and `None` exactly where that instant leaves
    /// `chrono`'s range.
    #[verifier::external_body]
    pub(crate) fn checked_sub_days(&self, days: i64) -> (r: Option<UtcDateTime>)
        ensures
            r is Some <==> utc_accepts(day_shift(self@, -days).seconds, day_shift(self@, -days).nanos),
            r matches Some(u) ==> u@ == day_shift(self@, -days),
    {
        let t = chrono::DateTime::from_timestamp(self.seconds, self.nanos).unwrap();
        chrono::TimeDelta::try_days(days).and_then(|d| t.checked_sub_signed(d)).map(
            |u| UtcDateTime { seconds: u.timestamp(), nanos: u.timestamp_subsec_nanos() },
        )
    }

    /// `chrono`'s `DateTime::checked_add_signed` with a delta of `days`
    /// whole days (`TimeDelta::try_days`): the instant `day_shift` reaches
    /// by `days` days, and `None` exactly where that instant leaves
    /// `chrono`'s range.
    #[verifier::external_body]
    pub(crate) fn checked_add_days(&self, days: i64) -> (r: Option<UtcDateTime>)
        ensures
            r is Some <==> utc_accepts(
                day_shift(self@, days as int).seconds,
                day_shift(self@, days as int).nanos,
            ),
            r matches Some(u) ==> u@ == day_shift(self@, days as int),
    {
        let t = chrono::DateTime::from_timestamp(self.seconds, self.nanos).unwrap();
        chrono::TimeDelta::try_days(days).and_then(|d| t.checked_add_signed(d)).map(
            |u| UtcDateTime { seconds: u.timestamp(), nanos: u.timestamp_subsec_nanos() },
        )
    }

    /// `chrono`'s `DateTime::format` under a plain `strftime` pattern,
    /// rendered with `to_string`. The text itself is `chrono`'s: it is named
    /// `utc_strftime` of the instant and the pattern and not spelled out.
    /// None of the plain fields shows a fraction of a second, so an instant
    /// that is not a leap second renders as its whole second does (a leap
    /// second shows as second 60).
    #[verifier::external_body]
    pub(crate) fn format(&self, pattern: &str) -> (s: String)
        requires
            plain_strftime(pattern@),
        ensures
            s@ == utc_strftime(self@.seconds, self@.nanos, pattern@),
            self@.nanos < 1_000_000_000 ==> s@ == utc_strftime(self@.seconds, 0, pattern@),
    {
        let t = chrono::DateTime::from_timestamp(self.seconds, self.nanos).unwrap();
        t.format(pattern).to_string()
    }
}

} // verus!
