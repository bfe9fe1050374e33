use adhaan_gui::config::{Config, TimeAdjustment};
use adhaan_gui::period::{AsrConfig, Prayer};
use adhaan_gui::schedule::PrayerTimes;
use adhaan_gui::AppState;

fn hm(h: i64, m: i64) -> i64 {
    (h * 60 + m) * 60
}

fn schedule() -> PrayerTimes {
    PrayerTimes {
        yesterday: hm(-5, 0),
        qiyam_yesterday: hm(2, 0),
        fajr: hm(5, 0),
        sunrise: hm(6, 0),
        dhuhr: hm(12, 0),
        asr_awwal: hm(15, 30),
        asr_thaani: hm(16, 30),
        maghrib: hm(18, 30),
        isha: hm(20, 0),
        qiyam: hm(26, 0),
        tomorrow: hm(29, 0),
    }
    .validated()
    .unwrap()
}

fn state(asr: AsrConfig, ishraq: Option<(u8, u8)>) -> AppState {
    AppState {
        config: Config {
            asr,
            ishraq,
            ..Config::default()
        },
        prayers: schedule(),
    }
}

#[test]
fn successor_cycle_mode_a_visits_each_period_once() {
    let s = state(AsrConfig::DhuhrEndsAtAsrAwwal, None);
    let mut p = Prayer::Yesterday;
    let mut visited = vec![p];
    for _ in 0..9 {
        p = s.prayer_next(p);
        assert!(!visited.contains(&p), "{:?} visited twice", p);
        visited.push(p);
    }
    assert_eq!(p, Prayer::Tomorrow);
    assert!(!visited.contains(&Prayer::AsrThaani));
    assert_eq!(visited.len(), 10);
}

#[test]
fn successor_cycle_mode_b_and_c_pass_through_asr_thaani() {
    for asr in [
        AsrConfig::DhuhrEndsAtAsrThaaniButAsrStartsAtAsrAwwal,
        AsrConfig::AsrStartsAtAsrThaani(false),
        AsrConfig::AsrStartsAtAsrThaani(true),
    ] {
        let s = state(asr, None);
        assert_eq!(s.prayer_next(Prayer::Dhuhr), Prayer::AsrThaani);
        assert_eq!(s.prayer_next(Prayer::AsrThaani), Prayer::Maghrib);
        assert_eq!(s.prayer_next(Prayer::AsrAwwal), Prayer::Maghrib);
    }
}

#[test]
fn labels_mode_a() {
    let s = state(AsrConfig::DhuhrEndsAtAsrAwwal, None);
    assert_eq!(s.label_of(Prayer::AsrAwwal), "Asr");
    assert_eq!(s.label_of(Prayer::AsrThaani), "Asr thaani");
}

#[test]
fn labels_mode_b() {
    let s = state(AsrConfig::DhuhrEndsAtAsrThaaniButAsrStartsAtAsrAwwal, None);
    assert_eq!(s.label_of(Prayer::AsrAwwal), "Asr awwal");
    assert_eq!(s.label_of(Prayer::AsrThaani), "Asr thaani");
}

#[test]
fn labels_mode_c_without_both() {
    let s = state(AsrConfig::AsrStartsAtAsrThaani(false), None);
    assert_eq!(s.label_of(Prayer::AsrAwwal), "Asr awwal");
    assert_eq!(s.label_of(Prayer::AsrThaani), "Asr");
}

#[test]
fn labels_mode_c_with_both() {
    let s = state(AsrConfig::AsrStartsAtAsrThaani(true), None);
    assert_eq!(s.label_of(Prayer::AsrAwwal), "Asr awwal");
    assert_eq!(s.label_of(Prayer::AsrThaani), "Asr thaani");
}

#[test]
fn labels_sentinels_alias_adjacent_day() {
    let s = state(AsrConfig::DhuhrEndsAtAsrAwwal, None);
    assert_eq!(s.label_of(Prayer::Yesterday), "Isha");
    assert_eq!(s.label_of(Prayer::QiyamYesterday), "Qiyam");
    assert_eq!(s.label_of(Prayer::Tomorrow), "Fajr");
}

#[test]
fn label_sunrise_depends_on_ishraq() {
    let without = state(AsrConfig::DhuhrEndsAtAsrAwwal, None);
    let with = state(AsrConfig::DhuhrEndsAtAsrAwwal, Some((15, 10)));
    assert_eq!(without.label_of(Prayer::Sunrise), "Sunrise");
    assert_eq!(with.label_of(Prayer::Sunrise), "Ishraq");
}

#[test]
fn label_does_not_depend_on_time_or_schedule() {
    let mut other_schedule = schedule();
    other_schedule.dhuhr += 600;
    let a = state(AsrConfig::AsrStartsAtAsrThaani(false), Some((5, 5)));
    let b = AppState {
        config: a.config.clone(),
        prayers: other_schedule.validated().unwrap(),
    };
    for p in [
        Prayer::Yesterday,
        Prayer::QiyamYesterday,
        Prayer::Fajr,
        Prayer::Sunrise,
        Prayer::Dhuhr,
        Prayer::AsrAwwal,
        Prayer::AsrThaani,
        Prayer::Maghrib,
        Prayer::Isha,
        Prayer::Qiyam,
        Prayer::Tomorrow,
    ] {
        assert_eq!(a.label_of(p), b.label_of(p));
    }
}

#[test]
fn adjustment_shifts_by_exactly_the_offset() {
    let mut s = state(AsrConfig::DhuhrEndsAtAsrAwwal, None);
    s.config.user_adjustments = TimeAdjustment {
        fajr: -7,
        sunrise: 3,
        dhuhr: 0,
        asr: -20,
        maghrib: 1,
        isha: 250,
    };
    let sched = s.prayers;
    assert_eq!(s.adjusted_time_of(Prayer::Fajr) - sched.fajr, -7 * 60);
    assert_eq!(s.adjusted_time_of(Prayer::Sunrise) - sched.sunrise, 3 * 60);
    assert_eq!(s.adjusted_time_of(Prayer::Dhuhr) - sched.dhuhr, 0);
    assert_eq!(s.adjusted_time_of(Prayer::AsrAwwal) - sched.asr_awwal, -20 * 60);
    assert_eq!(s.adjusted_time_of(Prayer::AsrThaani) - sched.asr_thaani, -20 * 60);
    assert_eq!(s.adjusted_time_of(Prayer::Maghrib) - sched.maghrib, 60);
    assert_eq!(s.adjusted_time_of(Prayer::Isha) - sched.isha, 250 * 60);
    // Sentinels and Qiyam are never adjusted.
    assert_eq!(s.adjusted_time_of(Prayer::Yesterday), sched.yesterday);
    assert_eq!(s.adjusted_time_of(Prayer::QiyamYesterday), sched.qiyam_yesterday);
    assert_eq!(s.adjusted_time_of(Prayer::Qiyam), sched.qiyam);
    assert_eq!(s.adjusted_time_of(Prayer::Tomorrow), sched.tomorrow);
}

#[test]
fn prayer_at_resolves_each_window() {
    let s = schedule();
    assert_eq!(s.prayer_at(hm(-5, 0)), Prayer::Yesterday);
    assert_eq!(s.prayer_at(hm(1, 59)), Prayer::Yesterday);
    assert_eq!(s.prayer_at(hm(2, 0)), Prayer::QiyamYesterday);
    assert_eq!(s.prayer_at(hm(5, 0)), Prayer::Fajr);
    assert_eq!(s.prayer_at(hm(6, 0)), Prayer::Sunrise);
    assert_eq!(s.prayer_at(hm(11, 59)), Prayer::Sunrise);
    assert_eq!(s.prayer_at(hm(12, 0)), Prayer::Dhuhr);
    assert_eq!(s.prayer_at(hm(15, 30)), Prayer::AsrAwwal);
    assert_eq!(s.prayer_at(hm(16, 30)), Prayer::AsrThaani);
    assert_eq!(s.prayer_at(hm(18, 30)), Prayer::Maghrib);
    assert_eq!(s.prayer_at(hm(20, 0)), Prayer::Isha);
    assert_eq!(s.prayer_at(hm(26, 0)), Prayer::Qiyam);
    assert_eq!(s.prayer_at(hm(28, 59)), Prayer::Qiyam);
}
