//! Settings read once at start, and what the gateway reports of itself.

use vstd::prelude::*;
use vstd::string::*;

use crate::number::{parse_u16, u16_of_text};

verus! {

/// The bot's settings.
#[derive(Debug, Clone)]
pub struct Config {
    pub configured_prefix: String,
    pub token: String,
    pub lavalink_host: String,
    pub lavalink_port: u16,
    pub lavalink_password: String,
}

/// Why the settings could not be formed.
#[derive(Debug, Clone)]
pub enum ConfigError {
    /// The named setting is not set.
    Missing(String),
    /// The port is not a number from 0 to 65535.
    InvalidPort(String),
}

/// The error for a missing setting, or the setting's value.
fn required(value: Option<String>, name: &str) -> (r: Result<String, ConfigError>)
    ensures
        match value {
            Some(v) => r matches Ok(s) && s == v,
            None => r matches Err(ConfigError::Missing(n)) && n@ == name@,
        },
{
    match value {
        Some(v) => Ok(v),
        None => Err(ConfigError::Missing(String::from_str(name))),
    }
}

impl Config {
    /// The settings from the values of `PREFIX`, `DISCORD_TOKEN`,
    /// `LAVALINK_HOST`, `LAVALINK_PORT` and `LAVALINK_PASSWORD`, checked in
    /// that order. The prefix defaults to `;`; the others must be set, and
    /// the port must read as a `u16`.
    pub fn from_values(
        prefix: Option<String>,
        token: Option<String>,
        host: Option<String>,
        port: Option<String>,
        password: Option<String>,
    ) -> (r: Result<Config, ConfigError>)
        ensures
            token is None ==> (r matches Err(ConfigError::Missing(n)) && n@ == "DISCORD_TOKEN"@),
            token is Some && host is None ==> (r matches Err(ConfigError::Missing(n)) && n@
                == "LAVALINK_HOST"@),
            token is Some && host is Some && port is None ==> (r matches Err(
                ConfigError::Missing(n),
            ) && n@ == "LAVALINK_PORT"@),
            token is Some && host is Some && port is Some && u16_of_text(port->0@) is None ==> (
            r matches Err(ConfigError::InvalidPort(p)) && p == port->0),
            token is Some && host is Some && port is Some && u16_of_text(port->0@) is Some
                && password is None ==> (r matches Err(ConfigError::Missing(n)) && n@
                == "LAVALINK_PASSWORD"@),
            r matches Ok(c) ==> {
                &&& token == Some(c.token)
                &&& host == Some(c.lavalink_host)
                &&& port is Some && u16_of_text(port->0@) == Some(c.lavalink_port)
                &&& password == Some(c.lavalink_password)
                &&& c.configured_prefix@ == match prefix {
                    Some(p) => p@,
                    None => ";"@,
                }
            },
            token is Some && host is Some && port is Some && u16_of_text(port->0@) is Some
                && password is Some ==> r is Ok,
    {
        let configured_prefix = match prefix {
            Some(p) => p,
            None => String::from_str(";"),
        };
        let token = match required(token, "DISCORD_TOKEN") {
            Ok(t) => t,
            Err(e) => return Err(e),
        };
        let lavalink_host = match required(host, "LAVALINK_HOST") {
            Ok(h) => h,
            Err(e) => return Err(e),
        };
        let port_text = match required(port, "LAVALINK_PORT") {
            Ok(p) => p,
            Err(e) => return Err(e),
        };
        let lavalink_port = match parse_u16(port_text.as_str()) {
            Some(p) => p,
            None => return Err(ConfigError::InvalidPort(port_text)),
        };
        let lavalink_password = match required(password, "LAVALINK_PASSWORD") {
            Ok(p) => p,
            Err(e) => return Err(e),
        };
        Ok(Config { configured_prefix, token, lavalink_host, lavalink_port, lavalink_password })
    }
}

/// What a shard reports: its average heartbeat latency, once measured.
#[derive(Debug, Clone)]
pub struct ShardInfo {
    pub latency_ms: Option<u128>,
}

} // verus!
