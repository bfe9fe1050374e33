//! One day's canonical period timestamps, supplied by the external
//! astronomical calculator, and the authoritative "period containing a
//! timestamp" lookup.
//!
//! Times are Unix timestamps in seconds. The day's coverage runs from the
//! previous day's Isha (the `Yesterday` sentinel) to the next day's Fajr (the
//! `Tomorrow` sentinel).

use vstd::prelude::*;
use crate::period::{spec_at_order, spec_order, Prayer};

verus! {

/// Largest admitted magnitude of a schedule timestamp, in seconds. Far beyond
/// any real date; it keeps every sum and difference the engine forms inside
/// `i64`.
pub const TIME_BOUND: i64 = 0x1000_0000_0000_0000;

/// A day's schedule: one timestamp per period, non-decreasing in
/// chronological order.
#[derive(Clone, Copy, Debug, PartialEq, Eq, Structural)]
pub struct PrayerTimes {
    /// Start of the previous day's Isha (the `Yesterday` sentinel).
    pub yesterday: i64,
    /// Start of the previous day's Qiyam reaching into this day.
    pub qiyam_yesterday: i64,
    pub fajr: i64,
    pub sunrise: i64,
    pub dhuhr: i64,
    pub asr_awwal: i64,
    pub asr_thaani: i64,
    pub maghrib: i64,
    pub isha: i64,
    pub qiyam: i64,
    /// Start of the next day's Fajr (the `Tomorrow` sentinel).
    pub tomorrow: i64,
}

/// Why a supplied schedule was rejected.
#[derive(Clone, Copy, Debug, PartialEq, Eq, Structural)]
pub enum ScheduleError {
    /// Some timestamp lies outside `[-TIME_BOUND, TIME_BOUND]`.
    OutOfRange,
    /// The timestamps are not in chronological order.
    OutOfOrder,
}

impl PrayerTimes {
    /// The scheduled timestamp of a period.
    pub open spec fn spec_time_of(self, prayer: Prayer) -> int {
        match prayer {
            Prayer::Yesterday => self.yesterday as int,
            Prayer::QiyamYesterday => self.qiyam_yesterday as int,
            Prayer::Fajr => self.fajr as int,
            Prayer::Sunrise => self.sunrise as int,
            Prayer::Dhuhr => self.dhuhr as int,
            Prayer::AsrAwwal => self.asr_awwal as int,
            Prayer::AsrThaani => self.asr_thaani as int,
            Prayer::Maghrib => self.maghrib as int,
            Prayer::Isha => self.isha as int,
            Prayer::Qiyam => self.qiyam as int,
            Prayer::Tomorrow => self.tomorrow as int,
        }
    }

    /// The timestamp at a chronological position (see `spec_order`).
    pub open spec fn spec_time_at(self, i: int) -> int {
        self.spec_time_of(spec_at_order(i))
    }

    /// Every timestamp lies in `[-TIME_BOUND, TIME_BOUND]`.
    pub open spec fn bounded(self) -> bool {
        &&& -TIME_BOUND <= self.yesterday <= TIME_BOUND
        &&& -TIME_BOUND <= self.qiyam_yesterday <= TIME_BOUND
        &&& -TIME_BOUND <= self.fajr <= TIME_BOUND
        &&& -TIME_BOUND <= self.sunrise <= TIME_BOUND
        &&& -TIME_BOUND <= self.dhuhr <= TIME_BOUND
        &&& -TIME_BOUND <= self.asr_awwal <= TIME_BOUND
        &&& -TIME_BOUND <= self.asr_thaani <= TIME_BOUND
        &&& -TIME_BOUND <= self.maghrib <= TIME_BOUND
        &&& -TIME_BOUND <= self.isha <= TIME_BOUND
        &&& -TIME_BOUND <= self.qiyam <= TIME_BOUND
        &&& -TIME_BOUND <= self.tomorrow <= TIME_BOUND
    }

    /// The timestamps are non-decreasing in chronological order.
    pub open spec fn sorted(self) -> bool {
        &&& self.yesterday <= self.qiyam_yesterday <= self.fajr <= self.sunrise
        &&& self.sunrise <= self.dhuhr <= self.asr_awwal <= self.asr_thaani
        &&& self.asr_thaani <= self.maghrib <= self.isha <= self.qiyam <= self.tomorrow
    }

    /// Well-formed: ordered and in range.
    pub open spec fn wf(self) -> bool {
        self.bounded() && self.sorted()
    }

    /// `now` falls within the day this schedule covers.
    pub open spec fn spec_covers(self, now: int) -> bool {
        self.yesterday <= now < self.tomorrow
    }

    /// The period whose raw window contains `now`: the chronologically last
    /// period whose scheduled time is at or before `now`.
    pub open spec fn spec_prayer_at(self, now: int) -> Prayer {
        if now >= self.qiyam {
            Prayer::Qiyam
        } else if now >= self.isha {
            Prayer::Isha
        } else if now >= self.maghrib {
            Prayer::Maghrib
        } else if now >= self.asr_thaani {
            Prayer::AsrThaani
        } else if now >= self.asr_awwal {
            Prayer::AsrAwwal
        } else if now >= self.dhuhr {
            Prayer::Dhuhr
        } else if now >= self.sunrise {
            Prayer::Sunrise
        } else if now >= self.fajr {
            Prayer::Fajr
        } else if now >= self.qiyam_yesterday {
            Prayer::QiyamYesterday
        } else {
            Prayer::Yesterday
        }
    }

    /// Validates a supplied schedule: accepted exactly when well-formed, and
    /// returned unchanged; the error says what was wrong, range checks first.
    pub fn validated(self) -> (r: Result<PrayerTimes, ScheduleError>)
        ensures
            r is Ok <==> self.wf(),
            r matches Ok(s) ==> s == self,
            !self.bounded() ==> r == Err::<PrayerTimes, ScheduleError>(ScheduleError::OutOfRange),
            self.bounded() && !self.sorted() ==> r == Err::<PrayerTimes, ScheduleError>(
                ScheduleError::OutOfOrder,
            ),
    {
        let in_range = -TIME_BOUND <= self.yesterday && self.yesterday <= TIME_BOUND
            && -TIME_BOUND <= self.qiyam_yesterday && self.qiyam_yesterday <= TIME_BOUND
            && -TIME_BOUND <= self.fajr && self.fajr <= TIME_BOUND
            && -TIME_BOUND <= self.sunrise && self.sunrise <= TIME_BOUND
            && -TIME_BOUND <= self.dhuhr && self.dhuhr <= TIME_BOUND
            && -TIME_BOUND <= self.asr_awwal && self.asr_awwal <= TIME_BOUND
            && -TIME_BOUND <= self.asr_thaani && self.asr_thaani <= TIME_BOUND
            && -TIME_BOUND <= self.maghrib && self.maghrib <= TIME_BOUND
            && -TIME_BOUND <= self.isha && self.isha <= TIME_BOUND
            && -TIME_BOUND <= self.qiyam && self.qiyam <= TIME_BOUND
            && -TIME_BOUND <= self.tomorrow && self.tomorrow <= TIME_BOUND;
        if !in_range {
            return Err(ScheduleError::OutOfRange);
        }
        let in_order = self.yesterday <= self.qiyam_yesterday
            && self.qiyam_yesterday <= self.fajr
            && self.fajr <= self.sunrise
            && self.sunrise <= self.dhuhr
            && self.dhuhr <= self.asr_awwal
            && self.asr_awwal <= self.asr_thaani
            && self.asr_thaani <= self.maghrib
            && self.maghrib <= self.isha
            && self.isha <= self.qiyam
            && self.qiyam <= self.tomorrow;
        if !in_order {
            return Err(ScheduleError::OutOfOrder);
        }
        Ok(self)
    }

    /// The scheduled timestamp of a period.
    pub fn time_of(&self, prayer: Prayer) -> (t: i64)
        ensures
            t == self.spec_time_of(prayer),
    {
        match prayer {
            Prayer::Yesterday => self.yesterday,
            Prayer::QiyamYesterday => self.qiyam_yesterday,
            Prayer::Fajr => self.fajr,
            Prayer::Sunrise => self.sunrise,
            Prayer::Dhuhr => self.dhuhr,
            Prayer::AsrAwwal => self.asr_awwal,
            Prayer::AsrThaani => self.asr_thaani,
            Prayer::Maghrib => self.maghrib,
            Prayer::Isha => self.isha,
            Prayer::Qiyam => self.qiyam,
            Prayer::Tomorrow => self.tomorrow,
        }
    }

    /// The period containing `now`. The single source of truth for row
    /// highlighting and the narrative; never resolves to `Tomorrow` inside
    /// the covered day.
    pub fn prayer_at(&self, now: i64) -> (p: Prayer)
        requires
            self.wf(),
            self.spec_covers(now as int),
        ensures
            p == self.spec_prayer_at(now as int),
            p != Prayer::Tomorrow,
    {
        if now >= self.qiyam {
            Prayer::Qiyam
        } else if now >= self.isha {
            Prayer::Isha
        } else if now >= self.maghrib {
            Prayer::Maghrib
        } else if now >= self.asr_thaani {
            Prayer::AsrThaani
        } else if now >= self.asr_awwal {
            Prayer::AsrAwwal
        } else if now >= self.dhuhr {
            Prayer::Dhuhr
        } else if now >= self.sunrise {
            Prayer::Sunrise
        } else if now >= self.fajr {
            Prayer::Fajr
        } else if now >= self.qiyam_yesterday {
            Prayer::QiyamYesterday
        } else {
            Prayer::Yesterday
        }
    }
}

/// The raw window of the resolved period contains `now`, and it is the only
/// period whose raw window does: exactly one period is ever current.
pub proof fn lemma_prayer_at_window(s: PrayerTimes, now: int)
    requires
        s.wf(),
        s.spec_covers(now),
    ensures
        s.spec_prayer_at(now) != Prayer::Tomorrow,
        s.spec_time_of(s.spec_prayer_at(now)) <= now,
        now < s.spec_time_at(spec_order(s.spec_prayer_at(now)) + 1),
        forall|p: Prayer|
            p != Prayer::Tomorrow && s.spec_time_of(p) <= now && now < s.spec_time_at(
                #[trigger] spec_order(p) + 1,
            ) ==> p == s.spec_prayer_at(now),
{
}

} // verus!
