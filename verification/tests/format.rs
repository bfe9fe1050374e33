use adhaan_gui::config::{Config, Theme, TimeAdjustment};
use adhaan_gui::narrative::count_text;
use adhaan_gui::period::{AsrConfig, Prayer};
use adhaan_gui::schedule::PrayerTimes;
use adhaan_gui::utils::{config_path, Icon};
use adhaan_gui::AppState;

fn hm(h: i64, m: i64) -> i64 {
    (h * 60 + m) * 60
}

fn state() -> AppState {
    AppState {
        config: Config::default(),
        prayers: PrayerTimes {
            yesterday: hm(-5, 0),
            qiyam_yesterday: hm(2, 0),
            fajr: hm(5, 0),
            sunrise: hm(6, 0),
            dhuhr: hm(12, 0),
            asr_awwal: hm(15, 30),
            asr_thaani: hm(16, 30),
            maghrib: hm(18, 30),
            isha: hm(20, 0),
            qiyam: hm(26, 0),
            tomorrow: hm(29, 0),
        }
        .validated()
        .unwrap(),
    }
}

#[test]
fn count_text_minutes_only() {
    assert_eq!(count_text(0), "0 minutes");
    assert_eq!(count_text(1), "1 minute");
    assert_eq!(count_text(2), "2 minutes");
    assert_eq!(count_text(59), "59 minutes");
}

#[test]
fn count_text_with_hours() {
    assert_eq!(count_text(60), "1 hour and 0 minutes");
    assert_eq!(count_text(61), "1 hour and 1 minute");
    assert_eq!(count_text(125), "2 hours and 5 minutes");
    assert_eq!(count_text(600), "10 hours and 0 minutes");
    assert_eq!(count_text(6181), "103 hours and 1 minute");
}

#[test]
fn in_waqt_text_truncates_to_whole_minutes() {
    let s = state();
    let (text, _) = s.make_str_remaining_in_waqt(hm(6, 0), hm(5, 45) + 1);
    assert_eq!(text, "14 minutes remaining");
    let (text, _) = s.make_str_remaining_in_waqt(hm(6, 0), hm(5, 45));
    assert_eq!(text, "15 minutes remaining");
}

#[test]
fn to_and_of_texts_carry_the_label() {
    let s = state();
    let (to, _) = s.make_str_remaining_to_waqt(Prayer::Fajr, hm(5, 0), hm(4, 30));
    assert_eq!(to, "30 minutes to Fajr");
    let (of, _) = s.make_str_remaining_in_waqt_labeled(Prayer::Dhuhr, hm(15, 30), hm(14, 29));
    assert_eq!(of, "1 hour and 1 minute of Dhuhr");
}

#[test]
fn config_path_appends_file_name() {
    assert_eq!(config_path("AdhaanGUI"), "AdhaanGUI/config.toml");
    assert_eq!(config_path(""), "/config.toml");
}

#[test]
fn icon_glyphs() {
    assert_eq!(Icon::Location.as_str(), "\u{e81d}");
    assert_eq!(Icon::Settings.as_str(), "\u{e713}");
    assert_eq!(Icon::Close.as_str(), "\u{e8bb}");
    assert_eq!(Icon::Info.as_str(), "\u{e946}");
}

#[test]
fn default_config_values() {
    let c = Config::default();
    assert_eq!(c.theme, "Default");
    assert_eq!(c.location_name.as_deref(), Some("Kaaba"));
    assert_eq!(c.asr, AsrConfig::DhuhrEndsAtAsrAwwal);
    assert_eq!(c.ishraq, None);
    assert_eq!(c.critical_at, 15);
    assert_eq!(c.user_adjustments, TimeAdjustment::default());
    assert_eq!(c.user_adjustments.fajr, 0);
}

#[test]
fn default_theme_values() {
    let t = Theme::default();
    assert_eq!(t.font, "Segoe UI Variable Display");
    assert!(t.dark_mode);
    assert!(!t.transparency);
}
