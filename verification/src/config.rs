//! Configuration read once at startup: every field optional, with the
//! documented default filled in by its getter.

use vstd::prelude::*;

verus! {

#[derive(Debug, Clone)]
pub struct ServerConfig {
    pub port: Option<u16>,
}

impl ServerConfig {
    pub open spec fn port_spec(self) -> u16 {
        match self.port {
            Option::Some(p) => p,
            Option::None => 3000,
        }
    }

    pub fn port(&self) -> (r: u16)
        ensures
            r == self.port_spec(),
    {
        match self.port {
            Option::Some(p) => p,
            Option::None => 3000,
        }
    }
}

impl Default for ServerConfig {
    fn default() -> (r: Self)
        ensures
            r.port is None,
    {
        ServerConfig { port: None }
    }
}

#[derive(Debug, Clone)]
pub struct DatabaseConfig {
    pub host: Option<String>,
    pub port: Option<u16>,
    pub username: Option<String>,
    pub password: Option<String>,
    pub database: Option<String>,
    pub schema: Option<String>,
    pub timeout: Option<u64>,
}

impl DatabaseConfig {
    pub fn host(&self) -> (r: String)
        ensures
            match self.host {
                Option::Some(h) => r@ == h@,
                Option::None => r@ == "localhost"@,
            },
    {
        match &self.host {
            Option::Some(h) => h.clone(),
            Option::None => "localhost".to_owned(),
        }
    }

    pub fn port(&self) -> (r: u16)
        ensures
            match self.port {
                Option::Some(p) => r == p,
                Option::None => r == 5432,
            },
    {
        match self.port {
            Option::Some(p) => p,
            Option::None => 5432,
        }
    }

    pub fn username(&self) -> (r: String)
        ensures
            match self.username {
                Option::Some(u) => r@ == u@,
                Option::None => r@ == "postgres"@,
            },
    {
        match &self.username {
            Option::Some(u) => u.clone(),
            Option::None => "postgres".to_owned(),
        }
    }

    pub fn password(&self) -> (r: String)
        ensures
            match self.password {
                Option::Some(p) => r@ == p@,
                Option::None => r@ == ""@,
            },
    {
        match &self.password {
            Option::Some(p) => p.clone(),
            Option::None => "".to_owned(),
        }
    }

    pub fn database(&self) -> (r: String)
        ensures
            match self.database {
                Option::Some(d) => r@ == d@,
                Option::None => r@ == "postgres"@,
            },
    {
        match &self.database {
            Option::Some(d) => d.clone(),
            Option::None => "postgres".to_owned(),
        }
    }

    pub fn schema(&self) -> (r: String)
        ensures
            match self.schema {
                Option::Some(s) => r@ == s@,
                Option::None => r@ == "public"@,
            },
    {
        match &self.schema {
            Option::Some(s) => s.clone(),
            Option::None => "public".to_owned(),
        }
    }

    pub fn timeout(&self) -> (r: u64)
        ensures
            match self.timeout {
                Option::Some(t) => r == t,
                Option::None => r == 5,
            },
    {
        match self.timeout {
            Option::Some(t) => t,
            Option::None => 5,
        }
    }
}

/// The application configuration: loading it from a file or the environment
/// is the surrounding program's concern; the library only holds the values.
#[derive(Debug, Clone)]
pub struct AppConfig {
    pub server: ServerConfig,
    pub database: DatabaseConfig,
}

impl AppConfig {
    pub fn new(server: ServerConfig, database: DatabaseConfig) -> (r: Self)
        ensures
            r.server == server,
            r.database == database,
    {
        AppConfig { server, database }
    }

    pub fn server(&self) -> (r: &ServerConfig)
        ensures
            *r == self.server,
    {
        &self.server
    }

    pub fn database(&self) -> (r: &DatabaseConfig)
        ensures
            *r == self.database,
    {
        &self.database
    }
}

} // verus!
