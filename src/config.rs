//! Server settings.
use vstd::prelude::*;
use crate::frequency::{parse_i64, parsed_i64};

verus! {

/// Where the server keeps its data and where it listens.
#[derive(Clone, Debug)]
pub struct Config {
    pub database_url: String,
    pub port: u16,
    pub host: String,
}

/// Why the settings could not be read.
#[derive(Clone, Debug, PartialEq, Eq)]
pub enum ConfigError {
    /// The port is not a whole number from 0 to 65535.
    InvalidPort(String),
}

/// The port that a string denotes, as `str::parse::<u16>` reads it: no minus
/// sign, a value from 0 to 65535.
pub open spec fn parsed_port(s: Seq<char>) -> Option<u16> {
    if s.len() > 0 && s[0] == '-' {
        None
    } else {
        match parsed_i64(s) {
            Some(v) => if 0 <= v <= 65535 {
                Some(v as u16)
            } else {
                None
            },
            None => None,
        }
    }
}

impl Config {
    /// The settings from the given values, with defaults for those missing:
    /// `sqlite://fluxfeed.db`, port 3000, host `0.0.0.0`.
    pub fn from_values(database_url: Option<String>, port: Option<String>, host: Option<String>) -> (r: Result<Config, ConfigError>)
        ensures
            match port {
                Some(p) => match parsed_port(p@) {
                    Some(n) => r matches Ok(c) && c.port == n,
                    None => r == Err::<Config, ConfigError>(ConfigError::InvalidPort(p)),
                },
                None => r matches Ok(c) && c.port == 3000,
            },
            r matches Ok(c) ==> c.database_url@ == (match database_url {
                Some(d) => d@,
                None => "sqlite://fluxfeed.db"@,
            }) && c.host@ == (match host {
                Some(h) => h@,
                None => "0.0.0.0"@,
            }),
    {
        let port_value: u16 = match port {
            None => 3000,
            Some(p) => {
                let negative = p.unicode_len() > 0 && p.as_str().get_char(0) == '-';
                let parsed = if negative { None } else { parse_i64(p.as_str()) };
                match parsed {
                    Some(v) => {
                        if 0 <= v && v <= 65535 {
                            v as u16
                        } else {
                            return Err(ConfigError::InvalidPort(p));
                        }
                    },
                    None => return Err(ConfigError::InvalidPort(p)),
                }
            },
        };
        let database_url = match database_url {
            Some(d) => d,
            None => String::from_str("sqlite://fluxfeed.db"),
        };
        let host = match host {
            Some(h) => h,
            None => String::from_str("0.0.0.0"),
        };
        Ok(Config { database_url, port: port_value, host })
    }
}

} // verus!
