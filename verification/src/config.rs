//! Server settings.

use vstd::prelude::*;

verus! {

/// Lowest port number that an unprivileged server may listen on.
pub const MIN_PORT: u16 = 1025;

/// Port that the server listens on when none is configured.
pub const DEFAULT_PORT: u16 = 3030;

/// A TCP port number.
#[derive(Debug)]
pub struct Port(pub u16);

/// Why a setting was refused.
#[derive(Debug, PartialEq, Eq)]
pub enum ConfigError {
    /// The port lies in the privileged range.
    InvalidPort(u16),
}

impl View for Port {
    type V = int;

    open spec fn view(&self) -> int {
        self.0 as int
    }
}

impl Port {
    /// A port is acceptable when it lies above the privileged range.
    pub open spec fn acceptable(port: u16) -> bool {
        port >= MIN_PORT
    }

    /// Checks a port number: privileged ports are refused, and the error
    /// carries the number that was refused.
    pub fn new(port: u16) -> (r: Result<(), ConfigError>)
        ensures
            Self::acceptable(port) ==> r == Ok::<(), ConfigError>(()),
            !Self::acceptable(port) ==> r == Err::<(), ConfigError>(ConfigError::InvalidPort(port)),
    {
        if port < MIN_PORT {
            Err(ConfigError::InvalidPort(port))
        } else {
            Ok(())
        }
    }

    /// The port number.
    pub fn number(&self) -> (n: u16)
        ensures
            n == self.0,
    {
        self.0
    }
}

impl Default for Port {
    fn default() -> (p: Port)
        ensures
            p.0 == DEFAULT_PORT,
    {
        Port(DEFAULT_PORT)
    }
}

/// What the server reads from its configuration file. Every field may be
/// absent.
#[derive(Debug)]
pub struct ServerConfig {
    pub fqdn: Option<String>,
    pub main_port: Option<Port>,
    pub pool_size: Option<u16>,
}

impl Default for ServerConfig {
    fn default() -> (c: ServerConfig)
        ensures
            c.fqdn is None,
            c.main_port is None,
            c.pool_size is None,
    {
        ServerConfig { fqdn: None, main_port: None, pool_size: None }
    }
}

impl ServerConfig {
    /// The configuration that is written out when no configuration file
    /// exists yet: an empty host name, the default port and no pool.
    pub fn fallback() -> (c: ServerConfig)
        ensures
            c.fqdn matches Some(f) && f@ == Seq::<char>::empty(),
            c.main_port matches Some(p) && p.0 == DEFAULT_PORT,
            c.pool_size == Some(0u16),
    {
        ServerConfig {
            fqdn: Some(String::new()),
            main_port: Some(Port(DEFAULT_PORT)),
            pool_size: Some(0),
        }
    }
}

} // verus!
