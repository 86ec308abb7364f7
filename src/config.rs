//! Settings read once at startup.
use vstd::prelude::*;

verus! {

/// Thresholds and cadence of the monitor.
#[derive(Clone, Copy, Debug, PartialEq, Eq)]
pub struct Config {
    /// A CPU core breaches when its usage, in tenths of a percent, is above this.
    pub cpu_usage_threshold: u32,
    /// Memory breaches when more than this percentage of it is used.
    pub mem_usage_threshold_percent: u64,
    /// Consecutive breaching ticks needed before an alert.
    pub cycles_for_alert: u64,
    /// Non-breaching ticks needed after an alert before the next one.
    pub cycles_between_alert: u64,
    /// Seconds between ticks.
    pub refresh_interval_secs: u64,
}

/// Why a configuration was refused.
#[derive(Clone, Copy, Debug, PartialEq, Eq)]
pub enum ConfigError {
    /// `cycles_for_alert` must be positive.
    ZeroCyclesForAlert,
    /// The notification sender is empty.
    MissingSender,
    /// The notification destination is empty.
    MissingDestination,
}

impl Config {
    /// Checks the settings; `cycles_for_alert` must be positive.
    pub fn new(
        cpu_usage_threshold: u32,
        mem_usage_threshold_percent: u64,
        cycles_for_alert: u64,
        cycles_between_alert: u64,
        refresh_interval_secs: u64,
    ) -> (r: Result<Config, ConfigError>)
        ensures
            cycles_for_alert == 0 <==> r == Err::<Config, ConfigError>(ConfigError::ZeroCyclesForAlert),
            cycles_for_alert > 0 ==> r == Ok::<Config, ConfigError>(Config {
                cpu_usage_threshold,
                mem_usage_threshold_percent,
                cycles_for_alert,
                cycles_between_alert,
                refresh_interval_secs,
            }),
    {
        if cycles_for_alert == 0 {
            Err(ConfigError::ZeroCyclesForAlert)
        } else {
            Ok(Config {
                cpu_usage_threshold,
                mem_usage_threshold_percent,
                cycles_for_alert,
                cycles_between_alert,
                refresh_interval_secs,
            })
        }
    }
}

/// Who sends the alerts and where they go.
#[derive(Clone, Debug, PartialEq, Eq)]
pub struct NotifierConfig {
    pub sender: String,
    pub destination: String,
}

impl NotifierConfig {
    /// Checks that neither identifier is empty; the sender is checked first.
    pub fn new(sender: String, destination: String) -> (r: Result<NotifierConfig, ConfigError>)
        ensures
            sender@.len() == 0 ==> r == Err::<NotifierConfig, ConfigError>(ConfigError::MissingSender),
            sender@.len() > 0 && destination@.len() == 0 ==> r == Err::<NotifierConfig, ConfigError>(
                ConfigError::MissingDestination,
            ),
            sender@.len() > 0 && destination@.len() > 0 ==> r is Ok && r->Ok_0.sender@ == sender@
                && r->Ok_0.destination@ == destination@,
    {
        if sender.as_str().is_empty() {
            Err(ConfigError::MissingSender)
        } else if destination.as_str().is_empty() {
            Err(ConfigError::MissingDestination)
        } else {
            Ok(NotifierConfig { sender, destination })
        }
    }
}

} // verus!
