//! Configuration: the raw shape a configuration file parses into, the
//! resolved shape the gateway runs with, and the mappings between them.

use vstd::prelude::*;
use vstd::string::StringExecFns;

use crate::common::str_eq;

verus! {

/// The command line: where the configuration file lives, and how loudly
/// to log.
#[derive(Debug, PartialEq, Eq)]
pub struct Args {
    pub config: String,
    pub debug: u8,
}

/// A log level, from quietest to noisiest.
#[derive(Debug, Clone, Copy, PartialEq, Eq, Structural)]
pub enum LogLevel {
    Error,
    Warn,
    Info,
    Debug,
    Trace,
}

/// Why a configuration could not be used.
#[derive(Debug, PartialEq, Eq)]
pub enum ConfigError {
    InvalidConfig(String),
    ReadError(String),
    ParseError(String),
}

/// The server table as the configuration file spells it.
#[derive(Debug, PartialEq, Eq)]
pub struct ServerInput {
    pub address: String,
    pub log_level: String,
    pub network: String,
    pub relay: String,
}

/// The server table resolved: the level parsed and the network turned
/// into its magic.
#[derive(Debug, PartialEq, Eq)]
pub struct Server {
    pub address: String,
    pub log_level: LogLevel,
    pub network_magic: u64,
    pub relay: String,
}

/// A whole configuration file, raw.
#[derive(Debug, PartialEq, Eq)]
pub struct ConfigInput {
    pub server: ServerInput,
}

/// A whole configuration, resolved.
#[derive(Debug, PartialEq, Eq)]
pub struct Config {
    pub server: Server,
}

/// The level a spelling names; anything unrecognized logs at the
/// default level.
pub open spec fn sp_log_level(s: Seq<char>) -> LogLevel {
    if s == "debug"@ {
        LogLevel::Debug
    } else if s == "info"@ {
        LogLevel::Info
    } else if s == "warn"@ {
        LogLevel::Warn
    } else if s == "error"@ {
        LogLevel::Error
    } else if s == "trace"@ {
        LogLevel::Trace
    } else {
        LogLevel::Info
    }
}

/// Parses a log level spelling.
pub fn log_level_of(s: &str) -> (r: LogLevel)
    ensures
        r == sp_log_level(s@),
{
    if str_eq(s, "debug") {
        LogLevel::Debug
    } else if str_eq(s, "info") {
        LogLevel::Info
    } else if str_eq(s, "warn") {
        LogLevel::Warn
    } else if str_eq(s, "error") {
        LogLevel::Error
    } else if str_eq(s, "trace") {
        LogLevel::Trace
    } else {
        LogLevel::Info
    }
}

/// The network magic a network name stands for, for the networks the
/// gateway serves.
pub open spec fn sp_network_magic(s: Seq<char>) -> Option<u64> {
    if s == "mainnet"@ {
        Some(764824073u64)
    } else if s == "preprod"@ {
        Some(1u64)
    } else if s == "preview"@ {
        Some(2u64)
    } else if s == "sanchonet"@ {
        Some(4u64)
    } else {
        None
    }
}

/// Parses a network name into its magic.
pub fn network_magic_of(s: &str) -> (r: Option<u64>)
    ensures
        r == sp_network_magic(s@),
{
    if str_eq(s, "mainnet") {
        Some(764824073)
    } else if str_eq(s, "preprod") {
        Some(1)
    } else if str_eq(s, "preview") {
        Some(2)
    } else if str_eq(s, "sanchonet") {
        Some(4)
    } else {
        None
    }
}

/// Resolves a parsed configuration file: the log level by its spelling,
/// the network by name. An unknown network is refused.
pub fn resolve_config(input: ConfigInput) -> (r: Result<Config, ConfigError>)
    ensures
        r is Ok <==> sp_network_magic(input.server.network@) is Some,
        r matches Ok(c) ==> {
            &&& c.server.address == input.server.address
            &&& c.server.relay == input.server.relay
            &&& c.server.log_level == sp_log_level(input.server.log_level@)
            &&& Some(c.server.network_magic) == sp_network_magic(input.server.network@)
        },
        r matches Err(e) ==> (e matches ConfigError::InvalidConfig(m) && m@ == "Invalid network"@),
{
    let log_level = log_level_of(input.server.log_level.as_str());
    let network_magic = match network_magic_of(input.server.network.as_str()) {
        Some(m) => m,
        None => {
            return Err(ConfigError::InvalidConfig(String::from_str("Invalid network")));
        },
    };
    Ok(
        Config {
            server: Server {
                address: input.server.address,
                log_level,
                network_magic,
                relay: input.server.relay,
            },
        },
    )
}

} // verus!
