//! The closed, ordered set of liturgical periods and the successor relation,
//! parameterized by the jurisprudential Dhuhr/Asr mode.

use vstd::prelude::*;

verus! {

/// One liturgical period of the tracked day. `Yesterday` and `Tomorrow` are
/// wraparound sentinels aliasing the adjacent day's Isha and Fajr;
/// `QiyamYesterday` is the previous day's Qiyam reaching into this day.
#[derive(Clone, Copy, Debug, PartialEq, Eq, Structural)]
pub enum Prayer {
    Yesterday,
    QiyamYesterday,
    Fajr,
    Sunrise,
    Dhuhr,
    AsrAwwal,
    AsrThaani,
    Maghrib,
    Isha,
    Qiyam,
    Tomorrow,
}

/// The jurisprudential mode governing how Dhuhr and the two Asr sub-periods
/// divide or overlap.
#[derive(Clone, Copy, Debug, PartialEq, Eq, Structural)]
pub enum AsrConfig {
    /// Dhuhr ends at Asr awwal, where Asr also begins.
    DhuhrEndsAtAsrAwwal,
    /// Dhuhr ends at Asr thaani, but Asr already begins at Asr awwal
    /// (the two windows overlap).
    DhuhrEndsAtAsrThaaniButAsrStartsAtAsrAwwal,
    /// Asr begins at Asr thaani; the flag selects whether both Asr rows
    /// are shown.
    AsrStartsAtAsrThaani(bool),
}

/// Successor of a period in the mode's daily cycle. Dhuhr's successor is
/// `AsrAwwal` exactly under `DhuhrEndsAtAsrAwwal`, else `AsrThaani`; both Asr
/// variants succeed to Maghrib. `Tomorrow` is the seam into the next day and
/// wraps to that day's `Yesterday`.
pub open spec fn spec_prayer_next(prayer: Prayer, asr: AsrConfig) -> Prayer {
    match prayer {
        Prayer::Yesterday => Prayer::QiyamYesterday,
        Prayer::QiyamYesterday => Prayer::Fajr,
        Prayer::Fajr => Prayer::Sunrise,
        Prayer::Sunrise => Prayer::Dhuhr,
        Prayer::Dhuhr => if asr is DhuhrEndsAtAsrAwwal {
            Prayer::AsrAwwal
        } else {
            Prayer::AsrThaani
        },
        Prayer::AsrAwwal => Prayer::Maghrib,
        Prayer::AsrThaani => Prayer::Maghrib,
        Prayer::Maghrib => Prayer::Isha,
        Prayer::Isha => Prayer::Qiyam,
        Prayer::Qiyam => Prayer::Tomorrow,
        Prayer::Tomorrow => Prayer::Yesterday,
    }
}

/// Position of a period in the chronological order of one day's schedule
/// (both Asr variants included, mode-independent).
pub open spec fn spec_order(prayer: Prayer) -> int {
    match prayer {
        Prayer::Yesterday => 0,
        Prayer::QiyamYesterday => 1,
        Prayer::Fajr => 2,
        Prayer::Sunrise => 3,
        Prayer::Dhuhr => 4,
        Prayer::AsrAwwal => 5,
        Prayer::AsrThaani => 6,
        Prayer::Maghrib => 7,
        Prayer::Isha => 8,
        Prayer::Qiyam => 9,
        Prayer::Tomorrow => 10,
    }
}

/// The period at a given chronological position; inverse of `spec_order`.
pub open spec fn spec_at_order(i: int) -> Prayer {
    if i == 0 {
        Prayer::Yesterday
    } else if i == 1 {
        Prayer::QiyamYesterday
    } else if i == 2 {
        Prayer::Fajr
    } else if i == 3 {
        Prayer::Sunrise
    } else if i == 4 {
        Prayer::Dhuhr
    } else if i == 5 {
        Prayer::AsrAwwal
    } else if i == 6 {
        Prayer::AsrThaani
    } else if i == 7 {
        Prayer::Maghrib
    } else if i == 8 {
        Prayer::Isha
    } else if i == 9 {
        Prayer::Qiyam
    } else {
        Prayer::Tomorrow
    }
}

/// The Asr variant a mode's cycle bypasses: Dhuhr hands over directly to the
/// other one.
pub open spec fn spec_skipped_asr(asr: AsrConfig) -> Prayer {
    if asr is DhuhrEndsAtAsrAwwal {
        Prayer::AsrThaani
    } else {
        Prayer::AsrAwwal
    }
}

/// The daily cycle of a mode, starting at `Yesterday`: each period followed
/// by its successor, ending at the `Tomorrow` seam.
pub open spec fn spec_cycle(asr: AsrConfig) -> Seq<Prayer> {
    seq![
        Prayer::Yesterday,
        Prayer::QiyamYesterday,
        Prayer::Fajr,
        Prayer::Sunrise,
        Prayer::Dhuhr,
        if asr is DhuhrEndsAtAsrAwwal {
            Prayer::AsrAwwal
        } else {
            Prayer::AsrThaani
        },
        Prayer::Maghrib,
        Prayer::Isha,
        Prayer::Qiyam,
        Prayer::Tomorrow,
    ]
}

/// Iterating the successor from `Yesterday` walks the mode's ten-period daily
/// cycle and returns to `Yesterday` at the seam, visiting each period on the
/// cycle exactly once. Every period is visited except the one Asr variant the
/// mode bypasses.
pub proof fn lemma_successor_cycle(asr: AsrConfig)
    ensures
        spec_cycle(asr).len() == 10,
        spec_cycle(asr)[0] == Prayer::Yesterday,
        forall|i: int|
            0 <= i < 9 ==> spec_cycle(asr)[i + 1] == spec_prayer_next(
                #[trigger] spec_cycle(asr)[i],
                asr,
            ),
        spec_prayer_next(spec_cycle(asr)[9], asr) == Prayer::Yesterday,
        forall|i: int, j: int|
            0 <= i < j < 10 ==> #[trigger] spec_cycle(asr)[i] != #[trigger] spec_cycle(asr)[j],
        forall|p: Prayer|
            p != spec_skipped_asr(asr) ==> #[trigger] spec_cycle(asr).contains(p),
        !spec_cycle(asr).contains(spec_skipped_asr(asr)),
{
    assert forall|p: Prayer| p != spec_skipped_asr(asr) implies #[trigger] spec_cycle(
        asr,
    ).contains(p) by {
        let c = spec_cycle(asr);
        match p {
            Prayer::Yesterday => assert(c[0] == p),
            Prayer::QiyamYesterday => assert(c[1] == p),
            Prayer::Fajr => assert(c[2] == p),
            Prayer::Sunrise => assert(c[3] == p),
            Prayer::Dhuhr => assert(c[4] == p),
            Prayer::AsrAwwal => assert(c[5] == p),
            Prayer::AsrThaani => assert(c[5] == p),
            Prayer::Maghrib => assert(c[6] == p),
            Prayer::Isha => assert(c[7] == p),
            Prayer::Qiyam => assert(c[8] == p),
            Prayer::Tomorrow => assert(c[9] == p),
        }
    }
    assert(!spec_cycle(asr).contains(spec_skipped_asr(asr))) by {
        let c = spec_cycle(asr);
        assert forall|i: int| 0 <= i < 10 implies c[i] != spec_skipped_asr(asr) by {}
    }
}

} // verus!
