//! The engine state: one configuration snapshot plus one day's schedule, and
//! the pure queries the display layer reads — labels, adjusted times, per-row
//! windows with progress, and the remaining-time narrative.

use vstd::prelude::*;
use crate::config::Config;
use crate::narrative::{count_text, spec_count_text};
use crate::period::{spec_prayer_next, AsrConfig, Prayer};
use crate::schedule::PrayerTimes;

verus! {

/// Immutable snapshot the engine projects from: user configuration and the
/// current day's schedule. Replaced wholesale, never mutated in place.
#[derive(Clone, Debug)]
pub struct AppState {
    pub config: Config,
    pub prayers: PrayerTimes,
}

/// Elapsed progress through a window as an exact rational `num / den`:
/// `num` seconds elapsed out of `den` seconds of window length.
#[derive(Clone, Copy, Debug, PartialEq, Eq, Structural)]
pub struct Fraction {
    pub num: i64,
    pub den: i64,
}

impl Fraction {
    /// A meaningful elapsed fraction: the window is non-empty and the value
    /// lies in the unit interval.
    pub open spec fn wf(self) -> bool {
        0 < self.den && 0 <= self.num <= self.den
    }
}

/// A row was asked for progress while its resolved window cannot contain the
/// current instant sensibly (end at or before start, or the instant outside
/// the window although the period is current). A programming-error class
/// condition, surfaced rather than clamped.
#[derive(Clone, Copy, Debug, PartialEq, Eq, Structural)]
pub enum EngineError {
    WindowInverted,
}

/// One displayable row: the (adjusted) start it shows, its label, and, when
/// the row is active, the elapsed fraction and urgency flag.
#[derive(Clone, Copy, Debug, PartialEq, Eq)]
pub struct WaqtRow {
    pub starts_at: i64,
    pub label: &'static str,
    pub progress: Option<(Fraction, bool)>,
}

/// The Asr row: Asr awwal's adjusted start and label, an optional secondary
/// Asr thaani sub-row, and the active window's progress.
#[derive(Clone, Copy, Debug, PartialEq, Eq)]
pub struct AsrRow {
    pub starts_at: i64,
    pub label: &'static str,
    pub thaani: Option<(i64, &'static str)>,
    pub progress: Option<(Fraction, bool)>,
}

/// Display label of a period: Sunrise reads "Ishraq" when an Ishraq window is
/// configured; each Asr sub-period reads plain "Asr" exactly in the mode that
/// makes it the one Asr row; the sentinels alias the adjacent day's periods.
pub open spec fn spec_label(prayer: Prayer, asr: AsrConfig, ishraq_configured: bool) -> Seq<
    char,
> {
    match prayer {
        Prayer::Yesterday => "Isha"@,
        Prayer::QiyamYesterday => "Qiyam"@,
        Prayer::Fajr => "Fajr"@,
        Prayer::Sunrise => if ishraq_configured {
            "Ishraq"@
        } else {
            "Sunrise"@
        },
        Prayer::Dhuhr => "Dhuhr"@,
        Prayer::AsrAwwal => if asr is DhuhrEndsAtAsrAwwal {
            "Asr"@
        } else {
            "Asr awwal"@
        },
        Prayer::AsrThaani => if asr == AsrConfig::AsrStartsAtAsrThaani(false) {
            "Asr"@
        } else {
            "Asr thaani"@
        },
        Prayer::Maghrib => "Maghrib"@,
        Prayer::Isha => "Isha"@,
        Prayer::Qiyam => "Qiyam"@,
        Prayer::Tomorrow => "Fajr"@,
    }
}

/// The user's minute offset for a period; zero for the periods that are never
/// adjusted. The single Asr offset covers both Asr sub-periods.
pub open spec fn spec_adjustment(config: Config, prayer: Prayer) -> int {
    match prayer {
        Prayer::Fajr => config.user_adjustments.fajr as int,
        Prayer::Sunrise => config.user_adjustments.sunrise as int,
        Prayer::Dhuhr => config.user_adjustments.dhuhr as int,
        Prayer::AsrAwwal => config.user_adjustments.asr as int,
        Prayer::AsrThaani => config.user_adjustments.asr as int,
        Prayer::Maghrib => config.user_adjustments.maghrib as int,
        Prayer::Isha => config.user_adjustments.isha as int,
        _ => 0,
    }
}

impl AppState {
    /// Configuration offsets are in range and the schedule is ordered and in
    /// range: every quantity the queries derive then fits in `i64`.
    pub open spec fn wf(self) -> bool {
        self.config.wf() && self.prayers.wf()
    }

    /// `now` falls within the day the schedule covers.
    pub open spec fn spec_covers(self, now: int) -> bool {
        self.prayers.spec_covers(now)
    }

    /// A period's scheduled time shifted by the user's offset for it, in
    /// seconds.
    pub open spec fn spec_adjusted_time_of(self, prayer: Prayer) -> int {
        self.prayers.spec_time_of(prayer) + 60 * spec_adjustment(self.config, prayer)
    }

    /// The label of this state's configuration for a period.
    pub open spec fn spec_label_of(self, prayer: Prayer) -> Seq<char> {
        spec_label(prayer, self.config.asr, self.config.ishraq is Some)
    }

    /// Successor of a period in the configured mode's daily cycle. `Tomorrow`
    /// is the seam into the next day and must never be asked.
    pub fn prayer_next(&self, prayer: Prayer) -> (r: Prayer)
        requires
            prayer != Prayer::Tomorrow,
        ensures
            r == spec_prayer_next(prayer, self.config.asr),
    {
        match prayer {
            Prayer::Yesterday => Prayer::QiyamYesterday,
            Prayer::QiyamYesterday => Prayer::Fajr,
            Prayer::Fajr => Prayer::Sunrise,
            Prayer::Sunrise => Prayer::Dhuhr,
            Prayer::Dhuhr => if self.config.asr == AsrConfig::DhuhrEndsAtAsrAwwal {
                Prayer::AsrAwwal
            } else {
                Prayer::AsrThaani
            },
            Prayer::AsrAwwal | Prayer::AsrThaani => Prayer::Maghrib,
            Prayer::Maghrib => Prayer::Isha,
            Prayer::Isha => Prayer::Qiyam,
            Prayer::Qiyam | Prayer::Tomorrow => Prayer::Tomorrow,
        }
    }

    /// The user's minute offset for a period.
    pub fn adjustment_for(&self, prayer: Prayer) -> (r: i64)
        ensures
            r == spec_adjustment(self.config, prayer),
    {
        match prayer {
            Prayer::Fajr => self.config.user_adjustments.fajr,
            Prayer::Sunrise => self.config.user_adjustments.sunrise,
            Prayer::Dhuhr => self.config.user_adjustments.dhuhr,
            Prayer::AsrAwwal | Prayer::AsrThaani => self.config.user_adjustments.asr,
            Prayer::Maghrib => self.config.user_adjustments.maghrib,
            Prayer::Isha => self.config.user_adjustments.isha,
            _ => 0,
        }
    }

    /// The display label for a period. A function of the period and the
    /// configuration alone; the current time plays no part.
    pub fn label_of(&self, prayer: Prayer) -> (r: &'static str)
        ensures
            r@ == self.spec_label_of(prayer),
    {
        match prayer {
            Prayer::Yesterday => "Isha",
            Prayer::QiyamYesterday => "Qiyam",
            Prayer::Fajr => "Fajr",
            Prayer::Sunrise => if self.config.ishraq.is_some() {
                "Ishraq"
            } else {
                "Sunrise"
            },
            Prayer::Dhuhr => "Dhuhr",
            Prayer::AsrAwwal => if self.config.asr == AsrConfig::DhuhrEndsAtAsrAwwal {
                "Asr"
            } else {
                "Asr awwal"
            },
            Prayer::AsrThaani => if self.config.asr == AsrConfig::AsrStartsAtAsrThaani(false) {
                "Asr"
            } else {
                "Asr thaani"
            },
            Prayer::Maghrib => "Maghrib",
            Prayer::Isha => "Isha",
            Prayer::Qiyam => "Qiyam",
            Prayer::Tomorrow => "Fajr",
        }
    }

    /// A period's scheduled time shifted by the user's minute offset: the
    /// result differs from the scheduled time by exactly sixty times the
    /// offset, for any offset in range, negative ones included.
    pub fn adjusted_time_of(&self, prayer: Prayer) -> (r: i64)
        requires
            self.wf(),
        ensures
            r == self.spec_adjusted_time_of(prayer),
            r - self.prayers.spec_time_of(prayer) == 60 * spec_adjustment(self.config, prayer),
    {
        self.prayers.time_of(prayer) + 60 * self.adjustment_for(prayer)
    }

    /// The urgency criterion: remaining time, in whole minutes, is strictly
    /// below the critical threshold. Exactly the threshold is not urgent.
    pub open spec fn spec_critical(self, remaining_secs: int) -> bool {
        remaining_secs / 60 < self.config.critical_at
    }

    /// Whether `remaining_secs` of remaining time flips the urgency flag.
    pub fn is_critical(&self, remaining_secs: i64) -> (r: bool)
        requires
            remaining_secs >= 0,
        ensures
            r == self.spec_critical(remaining_secs as int),
    {
        remaining_secs / 60 < self.config.critical_at as i64
    }

    /// The generic row for a period: shown from the adjusted start, active
    /// exactly while the schedule resolves the current period to it, with
    /// progress measured against the scheduled start of its successor.
    ///
    /// An active row whose window cannot place `now` (a misconfigured
    /// adjustment moved the start past the end or past `now`) is an invariant
    /// violation and is surfaced as an error.
    pub fn row_prayer(&self, prayer: Prayer, now: i64) -> (r: Result<WaqtRow, EngineError>)
        requires
            self.wf(),
            self.spec_covers(now as int),
            prayer != Prayer::Tomorrow,
        ensures
            ({
                let active = self.prayers.spec_prayer_at(now as int) == prayer;
                let start = self.spec_adjusted_time_of(prayer);
                let end = self.prayers.spec_time_of(
                    spec_prayer_next(prayer, self.config.asr),
                );
                &&& r is Err <==> active && !(start <= now <= end && start < end)
                &&& r matches Ok(row) ==> {
                    &&& row.starts_at == start
                    &&& row.label@ == self.spec_label_of(prayer)
                    &&& !active ==> row.progress is None
                    &&& active ==> (row.progress matches Some((f, crit)) && {
                        &&& f.num == now - start
                        &&& f.den == end - start
                        &&& f.wf()
                        &&& crit == self.spec_critical(end - now)
                    })
                }
            }),
    {
        let start = self.adjusted_time_of(prayer);
        let end = self.prayers.time_of(self.prayer_next(prayer));
        let current = self.prayers.prayer_at(now);
        let progress = if current == prayer {
            if !(start <= now && now <= end && start < end) {
                return Err(EngineError::WindowInverted);
            }
            let crit = self.is_critical(end - now);
            Some((Fraction { num: now - start, den: end - start }, crit))
        } else {
            None
        };
        Ok(WaqtRow { starts_at: start, label: self.label_of(prayer), progress })
    }

    /// Start of the configured Ishraq window: the adjusted sunrise plus the
    /// configured minutes (meaningful only when an Ishraq window is set).
    pub open spec fn spec_ishraq_start(self) -> int {
        let window = self.config.ishraq->0;
        self.spec_adjusted_time_of(Prayer::Sunrise) + 60 * (window.0 as int)
    }

    /// End of the configured Ishraq window: the scheduled (unadjusted) Dhuhr
    /// minus the configured minutes before midday.
    pub open spec fn spec_ishraq_end(self) -> int {
        let window = self.config.ishraq->0;
        self.prayers.spec_time_of(Prayer::Dhuhr) - 60 * (window.1 as int)
    }

    /// The Sunrise/Ishraq row. With an Ishraq window configured the row shows
    /// the window's start and is active exactly while `now` lies in the
    /// closed window; without one the row shows the adjusted sunrise and is
    /// never active.
    pub fn row_sunrise(&self, now: i64) -> (r: Result<WaqtRow, EngineError>)
        requires
            self.wf(),
        ensures
            self.config.ishraq is None ==> (r matches Ok(row) && {
                &&& row.starts_at == self.spec_adjusted_time_of(Prayer::Sunrise)
                &&& row.label@ == self.spec_label_of(Prayer::Sunrise)
                &&& row.progress is None
            }),
            self.config.ishraq is Some ==> ({
                let istart = self.spec_ishraq_start();
                let iend = self.spec_ishraq_end();
                let active = istart <= now <= iend;
                &&& r is Err <==> active && istart == iend
                &&& r matches Ok(row) ==> {
                    &&& row.starts_at == istart
                    &&& row.label@ == self.spec_label_of(Prayer::Sunrise)
                    &&& !active ==> row.progress is None
                    &&& active ==> (row.progress matches Some((f, crit)) && {
                        &&& f.num == now - istart
                        &&& f.den == iend - istart
                        &&& f.wf()
                        &&& crit == self.spec_critical(iend - now)
                    })
                }
            }),
    {
        let starts_at = self.adjusted_time_of(Prayer::Sunrise);
        let label = self.label_of(Prayer::Sunrise);
        if let Some((after_sunrise, zawal)) = self.config.ishraq {
            let istart = starts_at + 60 * (after_sunrise as i64);
            let iend = self.prayers.time_of(Prayer::Dhuhr) - 60 * (zawal as i64);
            let progress = if istart <= now && now <= iend {
                if istart == iend {
                    return Err(EngineError::WindowInverted);
                }
                let crit = self.is_critical(iend - now);
                Some((Fraction { num: now - istart, den: iend - istart }, crit))
            } else {
                None
            };
            Ok(WaqtRow { starts_at: istart, label, progress })
        } else {
            Ok(WaqtRow { starts_at, label, progress: None })
        }
    }

    /// The scheduled end of the Dhuhr row's window: Asr awwal under
    /// `DhuhrEndsAtAsrAwwal`, else Asr thaani.
    pub open spec fn spec_dhuhr_end(self) -> int {
        if self.config.asr is DhuhrEndsAtAsrAwwal {
            self.prayers.spec_time_of(Prayer::AsrAwwal)
        } else {
            self.prayers.spec_time_of(Prayer::AsrThaani)
        }
    }

    /// The Dhuhr row: active exactly while `now` lies in the closed window
    /// from the adjusted Dhuhr to the mode's scheduled end of Dhuhr.
    pub fn row_dhuhr(&self, now: i64) -> (r: Result<WaqtRow, EngineError>)
        requires
            self.wf(),
        ensures
            ({
                let start = self.spec_adjusted_time_of(Prayer::Dhuhr);
                let end = self.spec_dhuhr_end();
                let active = start <= now <= end;
                &&& r is Err <==> active && start == end
                &&& r matches Ok(row) ==> {
                    &&& row.starts_at == start
                    &&& row.label@ == self.spec_label_of(Prayer::Dhuhr)
                    &&& !active ==> row.progress is None
                    &&& active ==> (row.progress matches Some((f, crit)) && {
                        &&& f.num == now - start
                        &&& f.den == end - start
                        &&& f.wf()
                        &&& crit == self.spec_critical(end - now)
                    })
                }
            }),
    {
        let start = self.adjusted_time_of(Prayer::Dhuhr);
        let end = self.prayers.time_of(
            if self.config.asr == AsrConfig::DhuhrEndsAtAsrAwwal {
                Prayer::AsrAwwal
            } else {
                Prayer::AsrThaani
            },
        );
        let progress = if start <= now && now <= end {
            if start == end {
                return Err(EngineError::WindowInverted);
            }
            let crit = self.is_critical(end - now);
            Some((Fraction { num: now - start, den: end - start }, crit))
        } else {
            None
        };
        Ok(WaqtRow { starts_at: start, label: self.label_of(Prayer::Dhuhr), progress })
    }

    /// The adjusted start of the Asr window: Asr thaani when Asr starts
    /// there, else Asr awwal.
    pub open spec fn spec_asr_start(self) -> int {
        if self.config.asr is AsrStartsAtAsrThaani {
            self.spec_adjusted_time_of(Prayer::AsrThaani)
        } else {
            self.spec_adjusted_time_of(Prayer::AsrAwwal)
        }
    }

    /// Whether a secondary Asr thaani sub-row is shown: always, except under
    /// `DhuhrEndsAtAsrAwwal` and under `AsrStartsAtAsrThaani` without
    /// `show_both`.
    pub open spec fn spec_show_thaani(self) -> bool {
        self.config.asr != AsrConfig::DhuhrEndsAtAsrAwwal && self.config.asr
            != AsrConfig::AsrStartsAtAsrThaani(false)
    }

    /// The Asr row: displays Asr awwal's adjusted start and label, optionally
    /// the Asr thaani sub-row, and is active exactly while `now` lies in the
    /// closed window from the mode's Asr start to the scheduled Maghrib.
    pub fn row_asr(&self, now: i64) -> (r: Result<AsrRow, EngineError>)
        requires
            self.wf(),
        ensures
            ({
                let start = self.spec_asr_start();
                let end = self.prayers.spec_time_of(Prayer::Maghrib);
                let active = start <= now <= end;
                &&& r is Err <==> active && start == end
                &&& r matches Ok(row) ==> {
                    &&& row.starts_at == self.spec_adjusted_time_of(Prayer::AsrAwwal)
                    &&& row.label@ == self.spec_label_of(Prayer::AsrAwwal)
                    &&& self.spec_show_thaani() ==> (row.thaani matches Some((t, l)) && t
                        == self.spec_adjusted_time_of(Prayer::AsrThaani) && l@
                        == self.spec_label_of(Prayer::AsrThaani))
                    &&& !self.spec_show_thaani() ==> row.thaani is None
                    &&& !active ==> row.progress is None
                    &&& active ==> (row.progress matches Some((f, crit)) && {
                        &&& f.num == now - start
                        &&& f.den == end - start
                        &&& f.wf()
                        &&& crit == self.spec_critical(end - now)
                    })
                }
            }),
    {
        let start_1 = self.adjusted_time_of(Prayer::AsrAwwal);
        let start_2 = self.adjusted_time_of(Prayer::AsrThaani);

        let start = if let AsrConfig::AsrStartsAtAsrThaani(_) = self.config.asr {
            start_2
        } else {
            start_1
        };

        let thaani = match self.config.asr {
            AsrConfig::DhuhrEndsAtAsrAwwal | AsrConfig::AsrStartsAtAsrThaani(false) => None,
            _ => Some((start_2, self.label_of(Prayer::AsrThaani))),
        };

        let end = self.prayers.time_of(Prayer::Maghrib);
        let progress = if start <= now && now <= end {
            if start == end {
                return Err(EngineError::WindowInverted);
            }
            let crit = self.is_critical(end - now);
            Some((Fraction { num: now - start, den: end - start }, crit))
        } else {
            None
        };
        Ok(AsrRow { starts_at: start_1, label: self.label_of(Prayer::AsrAwwal), thaani, progress })
    }

    /// Narrative and urgency while inside a window that ends at `ends_at`:
    /// "<count> remaining".
    pub open spec fn spec_in_waqt(self, ends_at: int, now: int) -> (Seq<char>, bool) {
        (
            spec_count_text((ends_at - now) / 60) + " remaining"@,
            self.spec_critical(ends_at - now),
        )
    }

    /// Narrative and urgency while inside a period that ends at `ends_at`,
    /// named: "<count> of <label>".
    pub open spec fn spec_of_waqt(self, prayer: Prayer, ends_at: int, now: int) -> (
        Seq<char>,
        bool,
    ) {
        (
            spec_count_text((ends_at - now) / 60) + " of "@ + self.spec_label_of(prayer),
            self.spec_critical(ends_at - now),
        )
    }

    /// Narrative and urgency while counting down to a period that starts at
    /// `starts_at`: "<count> to <label>".
    pub open spec fn spec_to_waqt(self, prayer: Prayer, starts_at: int, now: int) -> (
        Seq<char>,
        bool,
    ) {
        (
            spec_count_text((starts_at - now) / 60) + " to "@ + self.spec_label_of(prayer),
            self.spec_critical(starts_at - now),
        )
    }

    /// "<count> remaining" plus the urgency flag for the time left until
    /// `ends_at`.
    pub fn make_str_remaining_in_waqt(&self, ends_at: i64, now: i64) -> (r: (String, bool))
        requires
            0 <= ends_at - now <= i64::MAX,
        ensures
            r.0@ == self.spec_in_waqt(ends_at as int, now as int).0,
            r.1 == self.spec_in_waqt(ends_at as int, now as int).1,
    {
        let remaining = ends_at - now;
        let mut s = count_text((remaining / 60) as u64);
        s.append(" remaining");
        proof {
            assert(s@ =~= self.spec_in_waqt(ends_at as int, now as int).0);
        }
        (s, self.is_critical(remaining))
    }

    /// "<count> of <label>" plus the urgency flag, for the current period
    /// `prayer` ending at `ends_at`.
    pub fn make_str_remaining_in_waqt_labeled(
        &self,
        prayer: Prayer,
        ends_at: i64,
        now: i64,
    ) -> (r: (String, bool))
        requires
            0 <= ends_at - now <= i64::MAX,
        ensures
            r.0@ == self.spec_of_waqt(prayer, ends_at as int, now as int).0,
            r.1 == self.spec_of_waqt(prayer, ends_at as int, now as int).1,
    {
        let remaining = ends_at - now;
        let mut s = count_text((remaining / 60) as u64);
        s.append(" of ");
        s.append(self.label_of(prayer));
        proof {
            assert(s@ =~= self.spec_of_waqt(prayer, ends_at as int, now as int).0);
        }
        (s, self.is_critical(remaining))
    }

    /// "<count> to <label>" plus the urgency flag, counting down to `prayer`
    /// starting at `starts_at`.
    pub fn make_str_remaining_to_waqt(
        &self,
        prayer: Prayer,
        starts_at: i64,
        now: i64,
    ) -> (r: (String, bool))
        requires
            0 <= starts_at - now <= i64::MAX,
        ensures
            r.0@ == self.spec_to_waqt(prayer, starts_at as int, now as int).0,
            r.1 == self.spec_to_waqt(prayer, starts_at as int, now as int).1,
    {
        let remaining = starts_at - now;
        let mut s = count_text((remaining / 60) as u64);
        s.append(" to ");
        s.append(self.label_of(prayer));
        proof {
            assert(s@ =~= self.spec_to_waqt(prayer, starts_at as int, now as int).0);
        }
        (s, self.is_critical(remaining))
    }

    /// The period whose scheduled start the current period's countdown runs
    /// to (meaningful for every period but the sentinels).
    pub open spec fn spec_ends_with(self, prayer: Prayer) -> Prayer {
        spec_prayer_next(prayer, self.config.asr)
    }

    /// The one situation in which the remaining-time decision table has no
    /// sensible answer: the current period is Sunrise, an Ishraq window is
    /// configured and already over, yet a misconfigured adjustment placed the
    /// adjusted Dhuhr before `now` — the countdown target has already passed.
    pub open spec fn spec_remaining_violation(self, now: int) -> bool {
        &&& self.prayers.spec_prayer_at(now) == Prayer::Sunrise
        &&& self.config.ishraq is Some
        &&& now >= self.spec_ishraq_start()
        &&& now > self.spec_ishraq_end()
        &&& self.spec_adjusted_time_of(Prayer::Dhuhr) < now
    }

    /// The remaining-time decision table, keyed on the current period (and,
    /// for Dhuhr and Asr, on the jurisprudential mode):
    ///
    /// - `Yesterday`: counting to QiyamYesterday's start, "... of Isha";
    /// - Sunrise with an Ishraq window: before it "... to Ishraq", after it
    ///   "... to Dhuhr" (to the adjusted Dhuhr), inside it "... remaining";
    /// - Sunrise without one: "... to Dhuhr", to the unadjusted scheduled
    ///   Dhuhr;
    /// - Asr awwal while Dhuhr still runs to Asr thaani (the overlapping
    ///   mode): still "... of Dhuhr", counting to Asr thaani's scheduled
    ///   start;
    /// - every other period: before its adjusted start "... to <label>",
    ///   after it "... remaining", counting to the scheduled start of its
    ///   successor.
    pub open spec fn spec_remaining(self, now: int) -> (Seq<char>, bool) {
        let prayer_now = self.prayers.spec_prayer_at(now);
        if prayer_now == Prayer::Yesterday {
            self.spec_of_waqt(
                Prayer::Yesterday,
                self.prayers.spec_time_of(Prayer::QiyamYesterday),
                now,
            )
        } else if prayer_now == Prayer::Sunrise {
            if self.config.ishraq is Some {
                if now < self.spec_ishraq_start() {
                    self.spec_to_waqt(Prayer::Sunrise, self.spec_ishraq_start(), now)
                } else if now > self.spec_ishraq_end() {
                    self.spec_to_waqt(
                        Prayer::Dhuhr,
                        self.spec_adjusted_time_of(Prayer::Dhuhr),
                        now,
                    )
                } else {
                    self.spec_in_waqt(self.spec_ishraq_end(), now)
                }
            } else {
                self.spec_to_waqt(Prayer::Dhuhr, self.prayers.spec_time_of(Prayer::Dhuhr), now)
            }
        } else if prayer_now == Prayer::AsrAwwal && self.config.asr
            is DhuhrEndsAtAsrThaaniButAsrStartsAtAsrAwwal {
            self.spec_of_waqt(Prayer::Dhuhr, self.prayers.spec_time_of(Prayer::AsrThaani), now)
        } else {
            let starts_at = self.spec_adjusted_time_of(prayer_now);
            if now < starts_at {
                self.spec_to_waqt(prayer_now, starts_at, now)
            } else {
                self.spec_in_waqt(
                    self.prayers.spec_time_of(self.spec_ends_with(prayer_now)),
                    now,
                )
            }
        }
    }

    /// The remaining-time query: the narrative text and urgency flag for the
    /// current instant, per the decision table `spec_remaining`.
    pub fn remaining_time(&self, now: i64) -> (r: Result<(String, bool), EngineError>)
        requires
            self.wf(),
            self.spec_covers(now as int),
        ensures
            r is Err <==> self.spec_remaining_violation(now as int),
            r matches Ok((text, crit)) ==> text@ == self.spec_remaining(now as int).0 && crit
                == self.spec_remaining(now as int).1,
    {
        let prayer_now = self.prayers.prayer_at(now);

        if prayer_now == Prayer::Yesterday {
            return Ok(self.make_str_remaining_in_waqt_labeled(
                prayer_now,
                self.prayers.time_of(Prayer::QiyamYesterday),
                now,
            ));
        }

        let starts_at = self.adjusted_time_of(prayer_now);

        if prayer_now == Prayer::Sunrise {
            return if let Some((after_sunrise, zawal)) = self.config.ishraq {
                let istart = starts_at + 60 * (after_sunrise as i64);
                let dhuhr_starts_at = self.adjusted_time_of(Prayer::Dhuhr);
                let iend = self.prayers.time_of(Prayer::Dhuhr) - 60 * (zawal as i64);

                if now < istart {
                    Ok(self.make_str_remaining_to_waqt(Prayer::Sunrise, istart, now))
                } else if now > iend {
                    if dhuhr_starts_at < now {
                        return Err(EngineError::WindowInverted);
                    }
                    Ok(self.make_str_remaining_to_waqt(Prayer::Dhuhr, dhuhr_starts_at, now))
                } else {
                    Ok(self.make_str_remaining_in_waqt(iend, now))
                }
            } else {
                Ok(self.make_str_remaining_to_waqt(
                    Prayer::Dhuhr,
                    self.prayers.time_of(Prayer::Dhuhr),
                    now,
                ))
            };
        }

        if prayer_now == Prayer::AsrAwwal && self.config.asr
            == AsrConfig::DhuhrEndsAtAsrThaaniButAsrStartsAtAsrAwwal {
            return Ok(self.make_str_remaining_in_waqt_labeled(
                Prayer::Dhuhr,
                self.prayers.time_of(Prayer::AsrThaani),
                now,
            ));
        }

        let ends_with = self.prayer_next(prayer_now);

        if now < starts_at {
            Ok(self.make_str_remaining_to_waqt(prayer_now, starts_at, now))
        } else {
            Ok(self.make_str_remaining_in_waqt(self.prayers.time_of(ends_with), now))
        }
    }
}

/// For every period and every in-range offset, negative ones included, the
/// adjusted time differs from the scheduled time by exactly the offset
/// (sixty seconds per configured minute).
pub proof fn lemma_adjustment_offset(s: AppState, prayer: Prayer)
    ensures
        s.spec_adjusted_time_of(prayer) - s.prayers.spec_time_of(prayer) == 60 * spec_adjustment(
            s.config,
            prayer,
        ),
{
}

/// For any window and any instant in it, the elapsed fraction lies in the
/// unit interval; it is zero exactly at the start instant and one exactly at
/// the end instant.
pub proof fn lemma_elapsed_fraction(f: Fraction, start: int, end: int, now: int)
    requires
        start < end,
        start <= now <= end,
        f.num == now - start,
        f.den == end - start,
    ensures
        f.wf(),
        f.num == 0 <==> now == start,
        f.num == f.den <==> now == end,
{
}

/// Urgency holds exactly when strictly fewer whole minutes remain than the
/// threshold: remaining time of exactly the threshold is not urgent, anything
/// below a full minute less is.
pub proof fn lemma_urgency_threshold(s: AppState, remaining_secs: int)
    requires
        0 <= remaining_secs,
    ensures
        s.spec_critical(remaining_secs) <==> remaining_secs / 60 < s.config.critical_at,
        remaining_secs == 60 * (s.config.critical_at as int) ==> !s.spec_critical(remaining_secs),
        remaining_secs < 60 * (s.config.critical_at as int) ==> s.spec_critical(remaining_secs),
{
    if remaining_secs < 60 * (s.config.critical_at as int) {
        assert(remaining_secs / 60 < s.config.critical_at) by (nonlinear_arith)
            requires
                0 <= remaining_secs,
                remaining_secs < 60 * (s.config.critical_at as int),
        ;
    }
}

/// A period's label depends only on the period and the configuration's mode
/// and Ishraq choice — never on the schedule or the current time.
pub proof fn lemma_label_time_independent(s1: AppState, s2: AppState, prayer: Prayer)
    requires
        s1.config.asr == s2.config.asr,
        s1.config.ishraq is Some <==> s2.config.ishraq is Some,
    ensures
        s1.spec_label_of(prayer) == s2.spec_label_of(prayer),
{
}

} // verus!
