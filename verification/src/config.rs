//! The application's configuration: the server, the Oracle database and
//! gRPC settings, and where the configuration is read from.

use vstd::prelude::*;
use crate::text::{decimal, push_decimal, text};

verus! {

/// Where the server listens.
#[derive(Debug, Clone)]
pub struct ServerConfig {
    port: u16,
    host: String,
}

impl ServerConfig {
    pub closed spec fn port(&self) -> u16 {
        self.port
    }

    pub closed spec fn host(&self) -> Seq<char> {
        self.host@
    }

    pub fn new(port: u16, host: String) -> (r: Self)
        ensures
            r.port() == port,
            r.host() == host@,
    {
        ServerConfig { port, host }
    }

    pub fn get_port(&self) -> (r: u16)
        ensures
            r == self.port(),
    {
        self.port
    }

    pub fn get_host(&self) -> (r: &String)
        ensures
            r@ == self.host(),
    {
        &self.host
    }

    /// The address to listen on: the host, a colon and the port.
    pub fn get_address(&self) -> (r: String)
        ensures
            r@ == self.host() + ":"@ + decimal(self.port() as nat),
    {
        let mut r = self.host.clone();
        r.append(":");
        push_decimal(&mut r, self.port as u64);
        r
    }
}

/// How to reach the Oracle database.
#[derive(Debug, Clone)]
pub struct OracleConfig {
    url: String,
    migration_enabled: bool,
    min_idle: u32,
    max_conn: u32,
}

impl OracleConfig {
    pub closed spec fn url(&self) -> Seq<char> {
        self.url@
    }

    pub closed spec fn migration_enabled(&self) -> bool {
        self.migration_enabled
    }

    pub closed spec fn min_idle(&self) -> u32 {
        self.min_idle
    }

    pub closed spec fn max_conn(&self) -> u32 {
        self.max_conn
    }

    pub fn new(url: String, migration_enabled: bool, min_idle: u32, max_conn: u32) -> (r: Self)
        ensures
            r.url() == url@,
            r.migration_enabled() == migration_enabled,
            r.min_idle() == min_idle,
            r.max_conn() == max_conn,
    {
        OracleConfig { url, migration_enabled, min_idle, max_conn }
    }

    pub fn get_url(&self) -> (r: &String)
        ensures
            r@ == self.url(),
    {
        &self.url
    }

    pub fn get_migration_enabled(&self) -> (r: bool)
        ensures
            r == self.migration_enabled(),
    {
        self.migration_enabled
    }

    pub fn get_min_idle(&self) -> (r: u32)
        ensures
            r == self.min_idle(),
    {
        self.min_idle
    }

    pub fn get_max_conn(&self) -> (r: u32)
        ensures
            r == self.max_conn(),
    {
        self.max_conn
    }
}

/// The gRPC settings.
#[derive(Debug, Clone, Copy)]
pub struct GrpcConfig {
    concurrency_limit_per_connection: u32,
}

impl GrpcConfig {
    pub closed spec fn concurrency_limit_per_connection(&self) -> u32 {
        self.concurrency_limit_per_connection
    }

    pub fn new(concurrency_limit_per_connection: u32) -> (r: Self)
        ensures
            r.concurrency_limit_per_connection() == concurrency_limit_per_connection,
    {
        GrpcConfig { concurrency_limit_per_connection }
    }

    pub fn get_concurrency_limit_per_connection(&self) -> (r: u32)
        ensures
            r == self.concurrency_limit_per_connection(),
    {
        self.concurrency_limit_per_connection
    }
}

/// The whole configuration.
#[derive(Debug, Clone)]
pub struct AppConfig {
    server: ServerConfig,
    oracle: OracleConfig,
    grpc: GrpcConfig,
}

impl AppConfig {
    pub closed spec fn server(&self) -> ServerConfig {
        self.server
    }

    pub closed spec fn oracle(&self) -> OracleConfig {
        self.oracle
    }

    pub closed spec fn grpc(&self) -> GrpcConfig {
        self.grpc
    }

    pub fn new(server: ServerConfig, oracle: OracleConfig, grpc: GrpcConfig) -> (r: Self)
        ensures
            r.server() == server,
            r.oracle() == oracle,
            r.grpc() == grpc,
    {
        AppConfig { server, oracle, grpc }
    }

    pub fn get_server(&self) -> (r: &ServerConfig)
        ensures
            *r == self.server(),
    {
        &self.server
    }

    pub fn get_oracle(&self) -> (r: &OracleConfig)
        ensures
            *r == self.oracle(),
    {
        &self.oracle
    }

    pub fn get_grpc(&self) -> (r: &GrpcConfig)
        ensures
            *r == self.grpc(),
    {
        &self.grpc
    }
}

/// The file of the settings that every run mode shares.
pub open spec fn base_config_path() -> Seq<char> {
    "config/application.yml"@
}

/// The file of a run mode's settings; the run mode is `local` when none is set.
pub open spec fn mode_config_path(run_mode: Option<Seq<char>>) -> Seq<char> {
    "config/application-"@ + (match run_mode {
        Some(m) => m,
        None => "local"@,
    }) + ".yml"@
}

/// The file of the settings that every run mode shares.
pub fn base_config_file() -> (r: String)
    ensures
        r@ == base_config_path(),
{
    text("config/application.yml")
}

/// The file of a run mode's settings.
pub fn mode_config_file(run_mode: Option<String>) -> (r: String)
    ensures
        r@ == mode_config_path(match run_mode {
            Some(m) => Some(m@),
            None => None,
        }),
{
    let mut r = text("config/application-");
    match run_mode {
        Some(m) => r.append(m.as_str()),
        None => r.append("local"),
    }
    r.append(".yml");
    r
}

} // verus!
