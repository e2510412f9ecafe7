//! The configuration of the explorer.

use crate::registers::RegisterConfig;
use crate::text::{decimal, decimal_text};
use vstd::prelude::*;
use vstd::string::StringExecFns;

verus! {

broadcast use vstd::string::group_string_axioms;

/// Where the device is and how it is polled.
#[derive(Debug)]
pub struct TcpConfig {
    pub host: String,
    pub port: u16,
    /// The unit that a row asks which names none of its own.
    pub unit_id: u8,
    pub poll_interval_ms: u64,
    pub timeout_ms: u64,
}

/// The configuration of the explorer.
#[derive(Debug)]
pub struct ExplorerConfig {
    pub tcp: TcpConfig,
    pub registers: Vec<RegisterConfig>,
}

/// Why a configuration is refused.
#[derive(Debug, Clone, Copy, PartialEq, Eq, Structural)]
pub enum ConfigError {
    NoRegisters,
}

impl ConfigError {
    /// What is shown to the user.
    pub fn message(&self) -> (text: String)
        ensures
            text@ == "Config must contain at least one register"@,
    {
        "Config must contain at least one register".to_owned()
    }
}

/// The polling interval where none is configured.
pub fn default_poll_interval_ms() -> (ms: u64)
    ensures
        ms == 1000,
{
    1000
}

/// The connect timeout where none is configured.
pub fn default_timeout_ms() -> (ms: u64)
    ensures
        ms == 2500,
{
    2500
}

/// Accepts a configuration that has registers.
pub fn check_config(cfg: ExplorerConfig) -> (checked: Result<ExplorerConfig, ConfigError>)
    ensures
        checked == (if cfg.registers@.len() == 0 {
            Err::<ExplorerConfig, ConfigError>(ConfigError::NoRegisters)
        } else {
            Ok::<ExplorerConfig, ConfigError>(cfg)
        }),
{
    if cfg.registers.len() == 0 {
        Err(ConfigError::NoRegisters)
    } else {
        Ok(cfg)
    }
}

/// The text of an address: host, colon, port.
pub open spec fn endpoint_text(host: Seq<char>, port: u16) -> Seq<char> {
    host + ":"@ + decimal(port as nat)
}

/// The text of an address: host, colon, port.
pub fn endpoint(host: &str, port: u16) -> (text: String)
    ensures
        text@ == endpoint_text(host@, port),
{
    let mut text = host.to_owned();
    text.append(":");
    text.append(decimal_text(port as u64).as_str());
    text
}

/// How long the worker waits for a command before it polls: the configured
/// interval, but no less than 100 ms.
pub open spec fn poll_wait(tcp: TcpConfig) -> u64 {
    if tcp.poll_interval_ms < 100 {
        100
    } else {
        tcp.poll_interval_ms
    }
}

/// How long the worker waits for a command before it polls.
pub fn poll_wait_ms(tcp: &TcpConfig) -> (ms: u64)
    ensures
        ms == poll_wait(*tcp),
{
    if tcp.poll_interval_ms < 100 {
        100
    } else {
        tcp.poll_interval_ms
    }
}

} // verus!
