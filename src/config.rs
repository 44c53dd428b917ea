//! Service configuration: where the registry lives and how the service runs.
use vstd::prelude::*;
use crate::registry::Registry;

verus! {

pub const GIT_DEFAULT_REPOSITORY: &'static str = "https://github.com/trunk-os/charon-packages";

pub const REGISTRY_DEFAULT_PATH: &'static str = "/trunk/charon/registry";

/// How much the service logs.
#[derive(Debug, Clone, Copy, PartialEq, Eq, Structural)]
pub enum LogLevel {
    Warn,
    Info,
    Error,
    Debug,
    Trace,
}

impl Default for LogLevel {
    fn default() -> (r: Self)
        ensures
            r == LogLevel::Info,
    {
        LogLevel::Info
    }
}

/// Where the registry is kept, and the repository it is synchronised from.
#[derive(Debug)]
pub struct RegistryConfig {
    pub path: String,
    pub url: Option<String>,
}

impl Default for RegistryConfig {
    fn default() -> (r: Self)
        ensures
            r.path@ == REGISTRY_DEFAULT_PATH@,
            r.url matches Some(u) && u@ == GIT_DEFAULT_REPOSITORY@,
    {
        RegistryConfig {
            path: String::from_str(REGISTRY_DEFAULT_PATH),
            url: Some(String::from_str(GIT_DEFAULT_REPOSITORY)),
        }
    }
}

/// The service's configuration.
#[derive(Debug)]
pub struct Config {
    pub registry: RegistryConfig,
    pub socket: String,
    pub systemd_root: Option<String>,
    pub log_level: Option<LogLevel>,
    pub debug: Option<bool>,
}

impl Config {
    /// The registry at the configured path.
    pub fn registry(&self) -> (r: Registry)
        ensures
            r.root@ == self.registry.path@,
    {
        Registry::new(self.registry.path.clone())
    }

    /// Whether debug mode is on; off unless configured.
    pub fn debug(&self) -> (r: bool)
        ensures
            r == (self.debug == Some(true)),
    {
        match self.debug {
            Some(d) => d,
            None => false,
        }
    }

    /// The configured log level, `Info` unless configured.
    pub fn log_level(&self) -> (r: LogLevel)
        ensures
            r == (match self.log_level {
                Some(l) => l,
                None => LogLevel::Info,
            }),
    {
        match self.log_level {
            Some(l) => l,
            None => LogLevel::default(),
        }
    }
}

/// The control service, run with one configuration.
#[derive(Debug)]
pub struct Server {
    pub config: Config,
}

impl Server {
    pub fn new(config: Config) -> (r: Self)
        ensures
            r.config == config,
    {
        Server { config }
    }
}

/// A client of the control service at a local socket.
#[derive(Debug)]
pub struct Client {
    pub socket: String,
}

impl Client {
    /// A client for the service listening at `socket`; no connection is made yet.
    pub fn new(socket: String) -> (r: Result<Self, crate::error::Error>)
        ensures
            r matches Ok(c) && c.socket@ == socket@,
    {
        Ok(Client { socket })
    }

    /// The endpoint to connect to: `unix://<socket>`.
    pub fn endpoint(&self) -> (r: String)
        ensures
            r@ == "unix://"@ + self.socket@,
    {
        String::from_str("unix://").concat(self.socket.as_str())
    }
}

} // verus!
