//! Configuration of the gateway server.

use vstd::prelude::*;

verus! {

/// What the server configuration holds.
pub struct ServerConfigurationView {
    pub host: Seq<char>,
    pub port: u16,
    pub log_level: Seq<char>,
}

/// Where the server listens, and how much it logs.
#[derive(Debug, Clone)]
pub struct ServerConfiguration {
    host: String,
    port: u16,
    log_level: String,
}

impl View for ServerConfiguration {
    type V = ServerConfigurationView;

    closed spec fn view(&self) -> ServerConfigurationView {
        ServerConfigurationView { host: self.host@, port: self.port, log_level: self.log_level@ }
    }
}

impl ServerConfiguration {
    /// The configuration listening on `host`:`port` and logging at `log_level`.
    pub fn new(host: String, port: u16, log_level: String) -> (res: Self)
        ensures
            res@ == (ServerConfigurationView { host: host@, port, log_level: log_level@ }),
    {
        ServerConfiguration { host, port, log_level }
    }

    /// The log level.
    pub fn log_level(&self) -> (res: &str)
        ensures
            res@ == self@.log_level,
    {
        self.log_level.as_str()
    }

    /// The host the server binds to.
    pub fn host(&self) -> (res: &str)
        ensures
            res@ == self@.host,
    {
        self.host.as_str()
    }

    /// The port the server binds to.
    pub fn port(&self) -> (res: u16)
        ensures
            res == self@.port,
    {
        self.port
    }

    /// The address the server binds to: its host and port.
    pub fn address(&self) -> (res: (&str, u16))
        ensures
            res.0@ == self@.host,
            res.1 == self@.port,
    {
        (self.host.as_str(), self.port)
    }
}

/// The configuration of the gateway.
#[derive(Debug, Clone)]
pub struct Configuration {
    server: ServerConfiguration,
}

impl View for Configuration {
    type V = ServerConfigurationView;

    closed spec fn view(&self) -> ServerConfigurationView {
        self.server@
    }
}

impl Configuration {
    /// The configuration made of the server's.
    pub fn new(server: ServerConfiguration) -> (res: Self)
        ensures
            res@ == server@,
    {
        Configuration { server }
    }

    /// The server's configuration.
    pub fn server(&self) -> (res: &ServerConfiguration)
        ensures
            res@ == self@,
    {
        &self.server
    }
}

} // verus!
