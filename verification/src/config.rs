//! The monitor's configuration and its defaults.

use crate::binary64::Binary64;
use crate::text::{chars_of, clone_optional, lowered, lowered_chars_of, optional_text, same_text};
use vstd::prelude::*;

verus! {

/// Where the UPS management daemon listens and which device to ask about.
#[derive(Debug)]
pub struct UpsConfig {
    pub host: String,
    pub name: String,
    pub port: u16,
    pub username: Option<String>,
    pub password: Option<String>,
}

/// How often the device is polled.
#[derive(Debug)]
pub struct MonitoringConfig {
    /// Seconds between the end of one poll cycle and the start of the next.
    pub poll_interval: u64,
}

/// When and how the host is shut down.
#[derive(Debug)]
pub struct ShutdownConfig {
    pub enabled: bool,
    /// Seconds on battery after which the host is shut down.
    pub on_battery_seconds: u64,
    /// Charge, in percent, at or below which the host is shut down.
    pub battery_percent_threshold: Binary64,
    /// Runtime estimate, in seconds, at or below which the host is shut down.
    pub runtime_threshold: u64,
    /// Program and arguments, separated by white space.
    pub shutdown_command: String,
    /// Seconds of countdown between the decision and the command.
    pub shutdown_grace_period: u64,
}

/// Where log lines go and from which level on.
#[derive(Debug)]
pub struct LoggingConfig {
    pub log_file: Option<String>,
    pub log_level: String,
}

/// The HTTP metrics endpoint.
#[derive(Debug)]
pub struct MetricsConfig {
    pub enabled: bool,
    pub port: u16,
    pub bearer_token: Option<String>,
    /// `json`, or anything else for the OpenMetrics text format.
    pub format: Option<String>,
}

/// The whole configuration.
#[derive(Debug)]
pub struct Config {
    pub ups: UpsConfig,
    pub monitoring: MonitoringConfig,
    pub shutdown: ShutdownConfig,
    pub logging: LoggingConfig,
    pub metrics: Option<MetricsConfig>,
}

/// A device section, with its texts as sequences of characters.
pub struct UpsConfigView {
    pub host: Seq<char>,
    pub name: Seq<char>,
    pub port: u16,
    pub username: Option<Seq<char>>,
    pub password: Option<Seq<char>>,
}

/// A shutdown section; the charge threshold is given by its bit pattern.
pub struct ShutdownConfigView {
    pub enabled: bool,
    pub on_battery_seconds: u64,
    pub battery_percent_threshold: u64,
    pub runtime_threshold: u64,
    pub shutdown_command: Seq<char>,
    pub shutdown_grace_period: u64,
}

/// A logging section.
pub struct LoggingConfigView {
    pub log_file: Option<Seq<char>>,
    pub log_level: Seq<char>,
}

/// A metrics section.
pub struct MetricsConfigView {
    pub enabled: bool,
    pub port: u16,
    pub bearer_token: Option<Seq<char>>,
    pub format: Option<Seq<char>>,
}

/// What a configuration says.
pub struct ConfigView {
    pub ups: UpsConfigView,
    pub poll_interval: u64,
    pub shutdown: ShutdownConfigView,
    pub logging: LoggingConfigView,
    pub metrics: Option<MetricsConfigView>,
}

impl View for UpsConfig {
    type V = UpsConfigView;

    open spec fn view(&self) -> UpsConfigView {
        UpsConfigView {
            host: self.host@,
            name: self.name@,
            port: self.port,
            username: optional_text(self.username),
            password: optional_text(self.password),
        }
    }
}

impl View for ShutdownConfig {
    type V = ShutdownConfigView;

    open spec fn view(&self) -> ShutdownConfigView {
        ShutdownConfigView {
            enabled: self.enabled,
            on_battery_seconds: self.on_battery_seconds,
            battery_percent_threshold: self.battery_percent_threshold.bits,
            runtime_threshold: self.runtime_threshold,
            shutdown_command: self.shutdown_command@,
            shutdown_grace_period: self.shutdown_grace_period,
        }
    }
}

impl View for LoggingConfig {
    type V = LoggingConfigView;

    open spec fn view(&self) -> LoggingConfigView {
        LoggingConfigView { log_file: optional_text(self.log_file), log_level: self.log_level@ }
    }
}

impl View for MetricsConfig {
    type V = MetricsConfigView;

    open spec fn view(&self) -> MetricsConfigView {
        MetricsConfigView {
            enabled: self.enabled,
            port: self.port,
            bearer_token: optional_text(self.bearer_token),
            format: optional_text(self.format),
        }
    }
}

impl View for Config {
    type V = ConfigView;

    open spec fn view(&self) -> ConfigView {
        ConfigView {
            ups: self.ups@,
            poll_interval: self.monitoring.poll_interval,
            shutdown: self.shutdown@,
            logging: self.logging@,
            metrics: match self.metrics {
                Some(m) => Some(m@),
                None => None,
            },
        }
    }
}

impl Clone for UpsConfig {
    fn clone(&self) -> (r: Self)
        ensures
            r@ == self@,
    {
        UpsConfig {
            host: self.host.clone(),
            name: self.name.clone(),
            port: self.port,
            username: clone_optional(&self.username),
            password: clone_optional(&self.password),
        }
    }
}

impl Clone for MonitoringConfig {
    fn clone(&self) -> (r: Self)
        ensures
            r == *self,
    {
        MonitoringConfig { poll_interval: self.poll_interval }
    }
}

impl Clone for ShutdownConfig {
    fn clone(&self) -> (r: Self)
        ensures
            r@ == self@,
    {
        ShutdownConfig {
            enabled: self.enabled,
            on_battery_seconds: self.on_battery_seconds,
            battery_percent_threshold: self.battery_percent_threshold,
            runtime_threshold: self.runtime_threshold,
            shutdown_command: self.shutdown_command.clone(),
            shutdown_grace_period: self.shutdown_grace_period,
        }
    }
}

impl Clone for LoggingConfig {
    fn clone(&self) -> (r: Self)
        ensures
            r@ == self@,
    {
        LoggingConfig {
            log_file: clone_optional(&self.log_file),
            log_level: self.log_level.clone(),
        }
    }
}

impl Clone for MetricsConfig {
    fn clone(&self) -> (r: Self)
        ensures
            r@ == self@,
    {
        MetricsConfig {
            enabled: self.enabled,
            port: self.port,
            bearer_token: clone_optional(&self.bearer_token),
            format: clone_optional(&self.format),
        }
    }
}

impl Clone for Config {
    fn clone(&self) -> (r: Self)
        ensures
            r@ == self@,
    {
        Config {
            ups: self.ups.clone(),
            monitoring: self.monitoring.clone(),
            shutdown: self.shutdown.clone(),
            logging: self.logging.clone(),
            metrics: match &self.metrics {
                Some(m) => Some(m.clone()),
                None => None,
            },
        }
    }
}

/// Bit pattern of the default charge threshold, 20 percent.
pub const DEFAULT_CHARGE_THRESHOLD_BITS: u64 = 0x4034_0000_0000_0000;

/// The configuration used where none is given: a daemon on this host at
/// port 3493, device `ups`, a poll every 5 seconds, shutdown and metrics
/// both switched off.
pub open spec fn default_config() -> ConfigView {
    ConfigView {
        ups: UpsConfigView {
            host: "localhost"@,
            name: "ups"@,
            port: 3493,
            username: None,
            password: None,
        },
        poll_interval: 5,
        shutdown: ShutdownConfigView {
            enabled: false,
            on_battery_seconds: 300,
            battery_percent_threshold: DEFAULT_CHARGE_THRESHOLD_BITS,
            runtime_threshold: 180,
            shutdown_command: "/sbin/shutdown -h +0"@,
            shutdown_grace_period: 30,
        },
        logging: LoggingConfigView { log_file: None, log_level: "info"@ },
        metrics: Some(
            MetricsConfigView {
                enabled: false,
                port: 8089,
                bearer_token: None,
                format: Some("openmetrics"@),
            },
        ),
    }
}

impl Default for Config {
    fn default() -> (c: Self)
        ensures
            c@ == default_config(),
    {
        Config {
            ups: UpsConfig {
                host: "localhost".to_owned(),
                name: "ups".to_owned(),
                port: 3493,
                username: None,
                password: None,
            },
            monitoring: MonitoringConfig { poll_interval: 5 },
            shutdown: ShutdownConfig {
                enabled: false,
                on_battery_seconds: 300,
                battery_percent_threshold: Binary64::from_bits(DEFAULT_CHARGE_THRESHOLD_BITS),
                runtime_threshold: 180,
                shutdown_command: "/sbin/shutdown -h +0".to_owned(),
                shutdown_grace_period: 30,
            },
            logging: LoggingConfig { log_file: None, log_level: "info".to_owned() },
            metrics: Some(
                MetricsConfig {
                    enabled: false,
                    port: 8089,
                    bearer_token: None,
                    format: Some("openmetrics".to_owned()),
                },
            ),
        }
    }
}

// ---------------------------------------------------------------------------
// Log levels
// ---------------------------------------------------------------------------

/// From which severity on messages are logged.
#[derive(Clone, Copy, Debug, PartialEq, Eq, Structural)]
pub enum LogLevel {
    Trace,
    Debug,
    Info,
    Warn,
    Error,
    Off,
}

/// The level that a name stands for, in any mix of upper and lower case.
/// `warning` is another name for `warn`.
pub open spec fn level_named(name: Seq<char>) -> Option<LogLevel> {
    let l = lowered(name);
    if l == "trace"@ {
        Some(LogLevel::Trace)
    } else if l == "debug"@ {
        Some(LogLevel::Debug)
    } else if l == "info"@ {
        Some(LogLevel::Info)
    } else if l == "warn"@ || l == "warning"@ {
        Some(LogLevel::Warn)
    } else if l == "error"@ {
        Some(LogLevel::Error)
    } else if l == "off"@ {
        Some(LogLevel::Off)
    } else {
        None
    }
}

impl LogLevel {
    /// The level that `name` stands for, if it names one.
    pub fn parse(name: &str) -> (level: Option<LogLevel>)
        ensures
            level == level_named(name@),
    {
        let l = lowered_chars_of(name);
        if same_text(&l, &chars_of("trace")) {
            Some(LogLevel::Trace)
        } else if same_text(&l, &chars_of("debug")) {
            Some(LogLevel::Debug)
        } else if same_text(&l, &chars_of("info")) {
            Some(LogLevel::Info)
        } else if same_text(&l, &chars_of("warn")) || same_text(&l, &chars_of("warning")) {
            Some(LogLevel::Warn)
        } else if same_text(&l, &chars_of("error")) {
            Some(LogLevel::Error)
        } else if same_text(&l, &chars_of("off")) {
            Some(LogLevel::Off)
        } else {
            None
        }
    }
}

/// The level to log from: the one `level` names, or `Info` where it names
/// none.
pub fn parse_log_level(level: &str) -> (parsed: LogLevel)
    ensures
        parsed == (match level_named(level@) {
            Some(l) => l,
            None => LogLevel::Info,
        }),
{
    match LogLevel::parse(level) {
        Some(l) => l,
        None => LogLevel::Info,
    }
}

} // verus!
