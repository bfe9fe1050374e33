//! Prayer period engine: a pure projection of (configuration, daily schedule,
//! current time) onto display rows, progress fractions, urgency flags and a
//! remaining-time narrative.

pub mod app_state;
pub mod config;
pub mod narrative;
pub mod period;
pub mod schedule;
pub mod utils;

pub use app_state::{AppState, AsrRow, EngineError, Fraction, WaqtRow};
pub use config::{AvailableMethods, Config, Theme, TimeAdjustment, ADJUSTMENT_BOUND};
pub use period::{AsrConfig, Prayer};
pub use schedule::{PrayerTimes, ScheduleError, TIME_BOUND};
pub use utils::{config_path, Icon};
