//! The configuration of the solar controller, and what follows from it.
//! Powers are bit patterns of doubles, currents bit patterns of singles.

use vstd::prelude::*;
use vstd::string::StringExecFns;

verus! {

broadcast use vstd::string::group_string_axioms;

/// The broker.
#[derive(Debug)]
pub struct MqttConfig {
    pub host: String,
    pub port: u16,
    pub client_id: String,
    pub username: Option<String>,
    pub password: Option<String>,
    pub topic_prefix: String,
    pub ha_discovery_prefix: String,
}

/// The charger.
#[derive(Debug)]
pub struct ChargerConfig {
    pub name: String,
    pub unique_id: String,
}

/// The control of the charging current.
#[derive(Debug)]
pub struct SolarControlConfig {
    /// Where the power that is returned to the grid is published.
    pub power_topic: String,
    /// A further topic on which the mode is commanded.
    pub external_mode_topic: Option<String>,
    pub mode_command_topic: Option<String>,
    pub mode_state_topic: Option<String>,
    pub debug_state_topic: Option<String>,
    /// The power above which there is a surplus.
    pub power_threshold_kw: u64,
    /// How long a surplus has to last before the current goes up.
    pub switch_high_after_secs: u64,
    /// How long a surplus has to be missing before the current goes down.
    pub switch_low_after_secs: u64,
    pub solar_high_current_amps: u32,
    pub solar_low_current_amps: u32,
    /// The current while the solar mode is off.
    pub fixed_current_amps: u32,
    pub mode_on_payload: String,
    pub mode_off_payload: String,
    pub publish_only_on_change: bool,
    pub publish_ha_discovery: bool,
}

/// The configuration of the solar controller.
#[derive(Debug)]
pub struct Config {
    pub mqtt: MqttConfig,
    pub charger: ChargerConfig,
    pub solar_control: SolarControlConfig,
}

pub fn default_ha_discovery_prefix() -> (prefix: String)
    ensures
        prefix@ == "homeassistant"@,
{
    "homeassistant".to_owned()
}

pub fn default_charger_name() -> (name: String)
    ensures
        name@ == "Alfen Eve"@,
{
    "Alfen Eve".to_owned()
}

pub fn default_power_topic() -> (topic: String)
    ensures
        topic@ == "homeassistant/sensor/esp_p1/dsmr_reader_power_returned/state"@,
{
    "homeassistant/sensor/esp_p1/dsmr_reader_power_returned/state".to_owned()
}

/// Five kilowatts.
pub fn default_threshold_kw() -> (bits: u64)
    ensures
        bits == 0x4014_0000_0000_0000,
{
    0x4014_0000_0000_0000
}

pub fn default_switch_high_after_secs() -> (secs: u64)
    ensures
        secs == 300,
{
    300
}

pub fn default_switch_low_after_secs() -> (secs: u64)
    ensures
        secs == 300,
{
    300
}

/// Six amperes.
pub fn default_high_current_amps() -> (bits: u32)
    ensures
        bits == 0x40C0_0000,
{
    0x40C0_0000
}

/// Four amperes.
pub fn default_low_current_amps() -> (bits: u32)
    ensures
        bits == 0x4080_0000,
{
    0x4080_0000
}

/// Six amperes.
pub fn default_fixed_current_amps() -> (bits: u32)
    ensures
        bits == 0x40C0_0000,
{
    0x40C0_0000
}

pub fn default_mode_on_payload() -> (payload: String)
    ensures
        payload@ == "ON"@,
{
    "ON".to_owned()
}

pub fn default_mode_off_payload() -> (payload: String)
    ensures
        payload@ == "OFF"@,
{
    "OFF".to_owned()
}

pub fn default_publish_on_change() -> (flag: bool)
    ensures
        flag,
{
    true
}

pub fn default_publish_ha_discovery() -> (flag: bool)
    ensures
        flag,
{
    true
}

/// Whether a configuration holds the default of every setting.
pub open spec fn is_default_control(cfg: SolarControlConfig) -> bool {
    &&& cfg.power_topic@ == "homeassistant/sensor/esp_p1/dsmr_reader_power_returned/state"@
    &&& cfg.external_mode_topic is None
    &&& cfg.mode_command_topic is None
    &&& cfg.mode_state_topic is None
    &&& cfg.debug_state_topic is None
    &&& cfg.power_threshold_kw == 0x4014_0000_0000_0000
    &&& cfg.switch_high_after_secs == 300
    &&& cfg.switch_low_after_secs == 300
    &&& cfg.solar_high_current_amps == 0x40C0_0000
    &&& cfg.solar_low_current_amps == 0x4080_0000
    &&& cfg.fixed_current_amps == 0x40C0_0000
    &&& cfg.mode_on_payload@ == "ON"@
    &&& cfg.mode_off_payload@ == "OFF"@
    &&& cfg.publish_only_on_change
    &&& cfg.publish_ha_discovery
}

impl Default for SolarControlConfig {
    fn default() -> (cfg: Self)
        ensures
            is_default_control(cfg),
    {
        SolarControlConfig {
            power_topic: default_power_topic(),
            external_mode_topic: None,
            mode_command_topic: None,
            mode_state_topic: None,
            debug_state_topic: None,
            power_threshold_kw: default_threshold_kw(),
            switch_high_after_secs: default_switch_high_after_secs(),
            switch_low_after_secs: default_switch_low_after_secs(),
            solar_high_current_amps: default_high_current_amps(),
            solar_low_current_amps: default_low_current_amps(),
            fixed_current_amps: default_fixed_current_amps(),
            mode_on_payload: default_mode_on_payload(),
            mode_off_payload: default_mode_off_payload(),
            publish_only_on_change: default_publish_on_change(),
            publish_ha_discovery: default_publish_ha_discovery(),
        }
    }
}

/// A topic below the charger's own: prefix, unique id, and the rest.
pub open spec fn charger_topic(cfg: Config, rest: Seq<char>) -> Seq<char> {
    cfg.mqtt.topic_prefix@ + "/"@ + cfg.charger.unique_id@ + rest
}

/// The configured topic, or else the charger's own.
pub open spec fn topic_or(cfg: Config, configured: Option<String>, rest: Seq<char>) -> Seq<char> {
    match configured {
        Some(topic) => topic@,
        None => charger_topic(cfg, rest),
    }
}

/// The topics that the controller uses.
#[derive(Debug, PartialEq, Eq)]
pub struct Topics {
    /// Where the charging current is commanded.
    pub set_max_current: String,
    /// Where the mode is commanded.
    pub mode_command: String,
    /// Where the mode is published.
    pub mode_state: String,
    /// Where the state of the controller is published.
    pub debug_state: String,
}

/// Whether these are the topics of a configuration.
pub open spec fn topics_of(cfg: Config, topics: Topics) -> bool {
    let control = cfg.solar_control;
    &&& topics.set_max_current@ == charger_topic(cfg, "/set/max_current"@)
    &&& topics.mode_command@ == topic_or(cfg, control.mode_command_topic, "/set/solar_mode"@)
    &&& topics.mode_state@ == topic_or(cfg, control.mode_state_topic, "/state/solar_mode"@)
    &&& topics.debug_state@ == topic_or(cfg, control.debug_state_topic, "/state/solar_debug"@)
}

fn own_topic(cfg: &Config, rest: &str) -> (topic: String)
    ensures
        topic@ == charger_topic(*cfg, rest@),
{
    let mut topic = cfg.mqtt.topic_prefix.clone();
    topic.append("/");
    topic.append(cfg.charger.unique_id.as_str());
    topic.append(rest);
    topic
}

fn configured_topic(cfg: &Config, configured: &Option<String>, rest: &str) -> (topic: String)
    ensures
        topic@ == topic_or(*cfg, *configured, rest@),
{
    match configured {
        Some(topic) => topic.clone(),
        None => own_topic(cfg, rest),
    }
}

impl Topics {
    /// The topics of a configuration.
    pub fn new(cfg: &Config) -> (topics: Self)
        ensures
            topics_of(*cfg, topics),
    {
        let control = &cfg.solar_control;
        Topics {
            set_max_current: own_topic(cfg, "/set/max_current"),
            mode_command: configured_topic(cfg, &control.mode_command_topic, "/set/solar_mode"),
            mode_state: configured_topic(cfg, &control.mode_state_topic, "/state/solar_mode"),
            debug_state: configured_topic(cfg, &control.debug_state_topic, "/state/solar_debug"),
        }
    }
}

/// The name by which the controller is known to the broker.
pub fn client_name(cfg: &MqttConfig) -> (name: String)
    ensures
        name@ == cfg.client_id@ + "-alfen_solar"@,
{
    let mut name = cfg.client_id.clone();
    name.append("-alfen_solar");
    name
}

/// The user and the password for the broker, if a user is configured. A
/// missing password is an empty one.
pub fn credentials(cfg: &MqttConfig) -> (login: Option<(String, String)>)
    ensures
        match cfg.username {
            Some(user) => if user@.len() == 0 {
                login is None
            } else {
                login matches Some(pair) && pair.0@ == user@ && pair.1@ == (match cfg.password {
                    Some(password) => password@,
                    None => Seq::empty(),
                })
            },
            None => login is None,
        },
{
    match &cfg.username {
        Some(user) => if user.as_str().is_empty() {
            None
        } else {
            let password = match &cfg.password {
                Some(password) => password.clone(),
                None => String::new(),
            };
            Some((user.clone(), password))
        },
        None => None,
    }
}

} // verus!
