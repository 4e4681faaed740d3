//! Service configuration, resolved once at startup from optional settings.
use vstd::prelude::*;
use vstd::string::*;
use crate::text::{parse_port, port_of};

verus! {

/// The host that the server binds when none is configured.
pub open spec fn default_host() -> Seq<char> {
    "127.0.0.1"@
}

pub const DEFAULT_PORT: u16 = 8080;

/// Settings that the server reads once and never changes.
pub struct ServiceConfig {
    pub api_key: String,
    pub host: String,
    pub port: u16,
}

#[derive(Debug, Clone, Copy, PartialEq, Eq, Structural)]
pub enum ConfigError {
    /// No API key, or an empty one, was supplied.
    MissingApiKey,
    /// The port setting is not a number from 0 to 65535.
    InvalidPort,
}

impl ServiceConfig {
    /// A usable configuration carries an API key.
    pub open spec fn wf(&self) -> bool {
        self.api_key@.len() > 0
    }

    /// Builds the configuration from the settings that were found. A missing
    /// host or port takes its default; a missing or empty API key is an error,
    /// and no key is ever made up.
    pub fn resolve(api_key: Option<String>, host: Option<String>, port: Option<String>) -> (r:
        Result<ServiceConfig, ConfigError>)
        ensures
            (api_key is None || api_key->Some_0@.len() == 0) ==> r == Err::<ServiceConfig, ConfigError>(
                ConfigError::MissingApiKey,
            ),
            (api_key is Some && api_key->Some_0@.len() > 0 && port is Some && port_of(
                port->Some_0@,
            ) is None) ==> r == Err::<ServiceConfig, ConfigError>(ConfigError::InvalidPort),
            r is Ok <==> (api_key is Some && api_key->Some_0@.len() > 0 && (port is None
                || port_of(port->Some_0@) is Some)),
            r matches Ok(c) ==> {
                &&& c.wf()
                &&& c.api_key@ == api_key->Some_0@
                &&& c.host@ == (match host {
                    Some(h) => h@,
                    None => default_host(),
                })
                &&& c.port == (match port {
                    Some(p) => port_of(p@)->Some_0,
                    None => DEFAULT_PORT,
                })
            },
    {
        let key = match api_key {
            Some(k) => k,
            None => {
                return Err(ConfigError::MissingApiKey);
            },
        };
        if key.as_str().is_empty() {
            return Err(ConfigError::MissingApiKey);
        }
        let port_number = match port {
            Some(p) => match parse_port(p.as_str()) {
                Some(n) => n,
                None => {
                    return Err(ConfigError::InvalidPort);
                },
            },
            None => DEFAULT_PORT,
        };
        let host_name = match host {
            Some(h) => h,
            None => String::from_str("127.0.0.1"),
        };
        Ok(ServiceConfig { api_key: key, host: host_name, port: port_number })
    }
}

} // verus!
