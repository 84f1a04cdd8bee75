//! The server's construction-time state; binding sockets and routing are
//! the surrounding program's concern.

use vstd::prelude::*;

use crate::config::ServerConfig;

verus! {

pub struct Server {
    pub config: ServerConfig,
}

impl Server {
    pub fn new(config: ServerConfig) -> (r: Self)
        ensures
            r.config == config,
    {
        Self { config }
    }

    /// The port the server listens on.
    pub fn port(&self) -> (r: u16)
        ensures
            r == self.config.port_spec(),
    {
        self.config.port()
    }
}

} // verus!
