//! The application's settings, and the values they take when a source does
//! not give them.

use vstd::prelude::*;
use vstd::string::StringExecFns;
use crate::scheduler::{DEFAULT_DEADLINE_MS, DEFAULT_DIVISOR};

verus! {

/// The settings the application runs with.
#[derive(Debug)]
pub struct AppConfig {
    /// The name of the CAN interface.
    pub can_interface: String,
    /// The MQTT broker's host address.
    pub mqtt_host: String,
    /// The MQTT broker's port.
    pub mqtt_port: i64,
    /// The topic under which every value is published.
    pub mqtt_base_topic: String,
    /// How long a poll cycle waits for its answers, in milliseconds.
    pub cycle_deadline_ms: u64,
    /// How many poll cycles make a round, in one of which the regular
    /// parameters are asked for. Never zero in a loaded configuration.
    pub regular_divisor: u32,
}

/// What a configuration source holds for each setting: a value, or nothing
/// where the source does not name the setting or names it with a value of
/// the wrong kind.
#[derive(Debug)]
pub struct Settings {
    pub can_interface: Option<String>,
    pub mqtt_host: Option<String>,
    pub mqtt_port: Option<i64>,
    pub mqtt_base_topic: Option<String>,
    pub cycle_deadline_ms: Option<i64>,
    pub regular_divisor: Option<i64>,
}

/// The port of a broker when none is given.
pub const DEFAULT_MQTT_PORT: i64 = 1883;

/// The text that a setting takes: the one given, or the default.
pub open spec fn text_or(given: Option<String>, default: Seq<char>) -> Seq<char> {
    match given {
        Some(text) => text@,
        None => default,
    }
}

/// The port that the settings give, or the default.
pub open spec fn port_or_default(given: Option<i64>) -> i64 {
    match given {
        Some(port) => port,
        None => DEFAULT_MQTT_PORT,
    }
}

/// The deadline that the settings give, or the default of twenty
/// milliseconds where they give none or a negative one.
pub open spec fn deadline_or_default(given: Option<i64>) -> u64 {
    if given is Some && given->0 >= 0 {
        given->0 as u64
    } else {
        DEFAULT_DEADLINE_MS
    }
}

/// The cadence divisor that the settings give, or the default of ten where
/// they give none or one that is below one or beyond 32 bits.
pub open spec fn divisor_or_default(given: Option<i64>) -> u32 {
    if given is Some && 1 <= given->0 <= u32::MAX {
        given->0 as u32
    } else {
        DEFAULT_DIVISOR
    }
}

fn or_default(given: Option<String>, default: &str) -> (text: String)
    ensures
        text@ == text_or(given, default@),
{
    match given {
        Some(text) => text,
        None => String::from_str(default),
    }
}

impl Settings {
    /// A source that names no setting.
    pub fn empty() -> (settings: Settings)
        ensures
            settings.can_interface is None,
            settings.mqtt_host is None,
            settings.mqtt_port is None,
            settings.mqtt_base_topic is None,
            settings.cycle_deadline_ms is None,
            settings.regular_divisor is None,
    {
        Settings {
            can_interface: None,
            mqtt_host: None,
            mqtt_port: None,
            mqtt_base_topic: None,
            cycle_deadline_ms: None,
            regular_divisor: None,
        }
    }
}

/// Makes the configuration from what was loaded. A source that could not
/// be loaded gives its error back unchanged. Otherwise each setting takes
/// the value of the source, or its default where the source has none:
/// `can0`, `default_host`, port 1883, `default_topic`, a deadline of twenty
/// milliseconds and a round of ten cycles. A deadline or a divisor that no
/// scheduler could run with takes its default too.
pub fn load_configuration(loaded: Result<Settings, String>) -> (result: Result<AppConfig, String>)
    ensures
        loaded matches Err(error) ==> result == Err::<AppConfig, String>(error),
        loaded matches Ok(settings) ==> (result matches Ok(config) && {
            &&& config.can_interface@ == text_or(settings.can_interface, "can0"@)
            &&& config.mqtt_host@ == text_or(settings.mqtt_host, "default_host"@)
            &&& config.mqtt_port == port_or_default(settings.mqtt_port)
            &&& config.mqtt_base_topic@ == text_or(settings.mqtt_base_topic, "default_topic"@)
            &&& config.cycle_deadline_ms == deadline_or_default(settings.cycle_deadline_ms)
            &&& config.regular_divisor == divisor_or_default(settings.regular_divisor)
            &&& config.regular_divisor >= 1
        }),
{
    match loaded {
        Err(error) => Err(error),
        Ok(settings) => Ok(
            AppConfig {
                can_interface: or_default(settings.can_interface, "can0"),
                mqtt_host: or_default(settings.mqtt_host, "default_host"),
                mqtt_port: match settings.mqtt_port {
                    Some(port) => port,
                    None => DEFAULT_MQTT_PORT,
                },
                mqtt_base_topic: or_default(settings.mqtt_base_topic, "default_topic"),
                cycle_deadline_ms: match settings.cycle_deadline_ms {
                    Some(ms) => if ms >= 0 {
                        ms as u64
                    } else {
                        DEFAULT_DEADLINE_MS
                    },
                    None => DEFAULT_DEADLINE_MS,
                },
                regular_divisor: match settings.regular_divisor {
                    Some(cycles) => if 1 <= cycles && cycles <= 0xFFFF_FFFF {
                        cycles as u32
                    } else {
                        DEFAULT_DIVISOR
                    },
                    None => DEFAULT_DIVISOR,
                },
            },
        ),
    }
}

/// The places where a configuration file is looked for when none is named,
/// in the order in which they are tried: `settings.toml` beside the
/// executable, where its directory is known, then two system-wide files.
pub open spec fn default_paths(exe_dir: Option<Seq<char>>) -> Seq<Seq<char>> {
    let system = seq![
        "/usr/etc/g86-car-telemetry/can-to-mqtt.toml"@,
        "/etc/g86-car-telemetry/can-to-mqtt.toml"@,
    ];
    match exe_dir {
        Some(dir) => seq![dir + "/settings.toml"@] + system,
        None => system,
    }
}

/// The places where a configuration file is looked for when none is named.
pub fn default_config_paths(exe_dir: Option<&str>) -> (paths: Vec<String>)
    ensures
        paths@.map_values(|p: String| p@) == default_paths(
            match exe_dir {
                Some(dir) => Some(dir@),
                None => None,
            },
        ),
{
    let mut paths: Vec<String> = Vec::new();
    match exe_dir {
        Some(dir) => {
            paths.push(String::from_str(dir).concat("/settings.toml"));
        },
        None => {},
    }
    paths.push(String::from_str("/usr/etc/g86-car-telemetry/can-to-mqtt.toml"));
    paths.push(String::from_str("/etc/g86-car-telemetry/can-to-mqtt.toml"));
    assert(paths@.map_values(|p: String| p@) =~= default_paths(
        match exe_dir {
            Some(dir) => Some(dir@),
            None => None,
        },
    ));
    paths
}

} // verus!
