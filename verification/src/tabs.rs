//! The per-tab view state: each tab owns nothing but its cursor, and the
//! timer tab additionally remembers the latest progress report it was shown.

pub mod home;
pub mod settings;
pub mod stats;
pub mod timer;

pub use home::Button;
pub use home::HomeTab;
pub use settings::SettingsTab;
pub use stats::StatsTab;
pub use timer::TimerTab;
