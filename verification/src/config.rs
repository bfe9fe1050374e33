//! User configuration consumed by the engine: jurisprudential mode, optional
//! Ishraq window, urgency threshold and per-prayer minute adjustments.

use vstd::prelude::*;
use crate::period::AsrConfig;

verus! {

/// Signed per-prayer adjustments in minutes. The single `asr` offset applies
/// identically to both Asr awwal and Asr thaani; the sentinel periods and
/// Qiyam are never adjusted.
#[derive(Clone, Copy, Debug, PartialEq, Eq, Structural)]
pub struct TimeAdjustment {
    pub fajr: i64,
    pub sunrise: i64,
    pub dhuhr: i64,
    pub asr: i64,
    pub maghrib: i64,
    pub isha: i64,
}

impl Default for TimeAdjustment {
    /// No adjustment for any prayer.
    fn default() -> (r: Self)
        ensures
            r == (TimeAdjustment { fajr: 0, sunrise: 0, dhuhr: 0, asr: 0, maghrib: 0, isha: 0 }),
    {
        TimeAdjustment { fajr: 0, sunrise: 0, dhuhr: 0, asr: 0, maghrib: 0, isha: 0 }
    }
}

/// Largest admitted magnitude of an adjustment, in minutes. Adjustments are
/// applied to timestamps with exact 64-bit arithmetic; this bound (about two
/// billion years) is what keeps every derived sum inside `i64`.
pub const ADJUSTMENT_BOUND: i64 = 0x4_0000_0000_0000;

impl TimeAdjustment {
    /// Every offset is small enough that applying it to an in-range timestamp
    /// stays inside `i64`.
    pub open spec fn wf(self) -> bool {
        &&& -ADJUSTMENT_BOUND <= self.fajr <= ADJUSTMENT_BOUND
        &&& -ADJUSTMENT_BOUND <= self.sunrise <= ADJUSTMENT_BOUND
        &&& -ADJUSTMENT_BOUND <= self.dhuhr <= ADJUSTMENT_BOUND
        &&& -ADJUSTMENT_BOUND <= self.asr <= ADJUSTMENT_BOUND
        &&& -ADJUSTMENT_BOUND <= self.maghrib <= ADJUSTMENT_BOUND
        &&& -ADJUSTMENT_BOUND <= self.isha <= ADJUSTMENT_BOUND
    }
}

/// Identifier of an astronomical calculation method. The engine never
/// interprets it; the external calculator does.
#[derive(Clone, Copy, Debug, PartialEq, Eq, Structural)]
pub enum AvailableMethods {
    Dubai,
    Egyptian,
    Karachi,
    Kuwait,
    MuslimWorldLeague,
    NorthAmerica,
    Qatar,
    Singapore,
    UmmAlQura,
    MoonsightingCommittee,
    MoonsightingCommitteeRedIsha,
    MoonsightingCommitteeWhiteIsha,
}

/// Appearance settings; opaque to the engine.
#[derive(Clone, Debug)]
pub struct Theme {
    pub font: String,
    pub dark_mode: bool,
    pub transparency: bool,
}

/// User configuration, loaded at startup and replaced wholesale by the
/// settings surface. Coordinates and other calculator parameters live with
/// the external calculator, not here.
#[derive(Clone, Debug)]
pub struct Config {
    pub theme: String,
    pub method: AvailableMethods,
    pub location_name: Option<String>,
    /// Dhuhr/Asr jurisprudential mode.
    pub asr: AsrConfig,
    /// Optional Ishraq window as (minutes after sunrise, minutes before
    /// midday); `None` means the Sunrise row has a point label only.
    pub ishraq: Option<(u8, u8)>,
    /// Urgency threshold in minutes: remaining time strictly below it flips
    /// the urgency flag.
    pub critical_at: u8,
    pub user_adjustments: TimeAdjustment,
}

impl Config {
    pub open spec fn wf(self) -> bool {
        self.user_adjustments.wf()
    }
}

impl Default for Config {
    /// The out-of-the-box configuration: default theme, the Kaaba as
    /// location, the Umm al-Qura method, no Ishraq window, a fifteen-minute
    /// urgency threshold, and no adjustments.
    fn default() -> (r: Self)
        ensures
            r.theme@ == "Default"@,
            r.method == AvailableMethods::UmmAlQura,
            r.location_name matches Some(name) && name@ == "Kaaba"@,
            r.asr == AsrConfig::DhuhrEndsAtAsrAwwal,
            r.ishraq is None,
            r.critical_at == 15,
            r.user_adjustments == (TimeAdjustment {
                fajr: 0,
                sunrise: 0,
                dhuhr: 0,
                asr: 0,
                maghrib: 0,
                isha: 0,
            }),
            r.wf(),
    {
        Config {
            theme: "Default".to_owned(),
            method: AvailableMethods::UmmAlQura,
            location_name: Some("Kaaba".to_owned()),
            asr: AsrConfig::DhuhrEndsAtAsrAwwal,
            ishraq: None,
            critical_at: 15,
            user_adjustments: TimeAdjustment::default(),
        }
    }
}

impl Default for Theme {
    /// The default appearance: the system's variable display font, dark mode
    /// on, transparency off.
    fn default() -> (r: Self)
        ensures
            r.font@ == "Segoe UI Variable Display"@,
            r.dark_mode == true,
            r.transparency == false,
    {
        Theme { font: "Segoe UI Variable Display".to_owned(), dark_mode: true, transparency: false }
    }
}

} // verus!
