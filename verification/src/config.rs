//! The manager's configuration (`bee_config.toml`).
use vstd::prelude::*;

use crate::text::{chars_of, concat, decimal, decimal_text, starts_with};

verus! {

pub struct Config {
    pub server: ServerConfig,
    pub database: DatabaseConfig,
    pub logging: LoggingConfig,
}

pub struct ServerConfig {
    pub host: String,
    pub port: u16,
    pub debug: bool,
}

pub struct DatabaseConfig {
    pub url: String,
    pub max_connections: u32,
}

pub struct LoggingConfig {
    pub level: String,
    /// A folder in which each run writes its own `debug-<time>.log`.
    pub folder: Option<String>,
    /// A file to which the log is written.
    pub file: Option<String>,
}

impl Default for ServerConfig {
    /// `127.0.0.1:9001`, debug off.
    fn default() -> (c: Self)
        ensures
            c.host@ == "127.0.0.1"@,
            c.port == 9001,
            !c.debug,
    {
        ServerConfig { host: "127.0.0.1".to_owned(), port: 9001, debug: false }
    }
}

impl Default for DatabaseConfig {
    /// `postgres://localhost/mydb` with at most 10 connections.
    fn default() -> (c: Self)
        ensures
            c.url@ == "postgres://localhost/mydb"@,
            c.max_connections == 10,
    {
        DatabaseConfig { url: "postgres://localhost/mydb".to_owned(), max_connections: 10 }
    }
}

impl Default for LoggingConfig {
    /// Level `info`, no log folder, no log file.
    fn default() -> (c: Self)
        ensures
            c.level@ == "info"@,
            c.folder is None,
            c.file is None,
    {
        LoggingConfig { level: "info".to_owned(), folder: None, file: None }
    }
}

/// Whether `c` is the configuration that `Config::default` builds.
pub open spec fn is_default_config(c: Config) -> bool {
    &&& c.server.host@ == "127.0.0.1"@
    &&& c.server.port == 9001
    &&& !c.server.debug
    &&& c.database.url@ == "postgres://localhost/mydb"@
    &&& c.database.max_connections == 10
    &&& c.logging.level@ == "info"@
    &&& c.logging.folder is None
    &&& c.logging.file is None
}

impl Default for Config {
    fn default() -> (c: Self)
        ensures
            is_default_config(c),
    {
        Config {
            server: ServerConfig::default(),
            database: DatabaseConfig::default(),
            logging: LoggingConfig::default(),
        }
    }
}

/// What was found at the configuration path.
pub enum ConfigFile {
    /// No file is there.
    Missing,
    /// The file was read and parsed as TOML into a configuration, or this failed
    /// with the given error text.
    Read(Result<Config, String>),
}

/// How the configuration was obtained.
pub enum ConfigLoad {
    /// The file held it.
    Loaded(Config),
    /// There was no file: this default configuration is to be written to the
    /// path, and is the result once it has been written.
    Created(Config),
}

/// The address text `host:port` of the server section.
pub open spec fn address_text(s: ServerConfig) -> Seq<char> {
    s.host@ + ":"@ + decimal(s.port as nat)
}

/// The address text `host:<port + offset>` of the server section, where
/// that port exists.
pub open spec fn offset_address(s: ServerConfig, offset: u16) -> Option<Seq<char>> {
    if s.port + offset <= u16::MAX {
        Some(s.host@ + ":"@ + decimal((s.port + offset) as nat))
    } else {
        None
    }
}

/// Whether a database URL names a MongoDB server.
pub open spec fn is_mongodb_url(url: Seq<char>) -> bool {
    "mongodb://"@.is_prefix_of(url) || "mongodb+srv://"@.is_prefix_of(url)
}

/// The configuration without its secrets (the database URL), as the
/// gateway hands it out.
pub struct SanitizedConfig {
    pub host: String,
    pub port: u16,
    pub debug: bool,
    pub level: String,
    pub folder: Option<String>,
    pub file: Option<String>,
    pub max_connections: u32,
}

impl Config {
    /// Reads the configuration at the path, or creates the default one where
    /// there is none.
    pub fn load_or_create(found: ConfigFile) -> (r: Result<ConfigLoad, String>)
        ensures
            match found {
                ConfigFile::Missing => r matches Ok(ConfigLoad::Created(c)) && is_default_config(c),
                ConfigFile::Read(Ok(c)) => r == Ok::<ConfigLoad, String>(ConfigLoad::Loaded(c)),
                ConfigFile::Read(Err(e)) => r == Err::<ConfigLoad, String>(e),
            },
    {
        match found {
            ConfigFile::Missing => Ok(ConfigLoad::Created(Config::default())),
            ConfigFile::Read(Ok(c)) => Ok(ConfigLoad::Loaded(c)),
            ConfigFile::Read(Err(e)) => Err(e),
        }
    }

    /// The server address as text, `host:port`; it is parsed into a socket
    /// address where it is used.
    pub fn get_address(&self) -> (r: String)
        ensures
            r@ == address_text(self.server),
    {
        let with_colon = concat(self.server.host.as_str(), ":");
        let port = decimal_text(self.server.port as u64);
        concat(with_colon.as_str(), port.as_str())
    }

    fn offset_address_text(&self, offset: u16) -> (r: Option<String>)
        ensures
            match offset_address(self.server, offset) {
                Some(t) => r matches Some(a) && a@ == t,
                None => r is None,
            },
    {
        if self.server.port > u16::MAX - offset {
            return None;
        }
        let with_colon = concat(self.server.host.as_str(), ":");
        let port = decimal_text((self.server.port + offset) as u64);
        Some(concat(with_colon.as_str(), port.as_str()))
    }

    /// The address on which backends connect. The configuration has no
    /// port for backends, so it is the server's host on the port after the
    /// nodes' port; `None` when the nodes' port is the last.
    pub fn backend_address(&self) -> (r: Option<String>)
        ensures
            match offset_address(self.server, 1) {
                Some(t) => r matches Some(a) && a@ == t,
                None => r is None,
            },
    {
        self.offset_address_text(1)
    }

    /// The address of the WebSocket gateway. The configuration has no port
    /// for it, so it is the server's host two ports after the nodes' port;
    /// `None` when there is no such port.
    pub fn gateway_address(&self) -> (r: Option<String>)
        ensures
            match offset_address(self.server, 2) {
                Some(t) => r matches Some(a) && a@ == t,
                None => r is None,
            },
    {
        self.offset_address_text(2)
    }

    /// Whether the log is also kept in MongoDB. The configuration has no
    /// switch for it: it is kept there when the database URL names a
    /// MongoDB server.
    pub fn logs_to_mongodb(&self) -> (r: bool)
        ensures
            r == is_mongodb_url(self.database.url@),
    {
        let url = chars_of(self.database.url.as_str());
        starts_with(&url, &chars_of("mongodb://")) || starts_with(&url, &chars_of("mongodb+srv://"))
    }

    /// The configuration as the gateway's `config.get` hands it out.
    pub fn sanitized(&self) -> (r: SanitizedConfig)
        ensures
            r.host == self.server.host,
            r.port == self.server.port,
            r.debug == self.server.debug,
            r.level == self.logging.level,
            r.folder == self.logging.folder,
            r.file == self.logging.file,
            r.max_connections == self.database.max_connections,
    {
        SanitizedConfig {
            host: self.server.host.clone(),
            port: self.server.port,
            debug: self.server.debug,
            level: self.logging.level.clone(),
            folder: match &self.logging.folder {
                Some(f) => Some(f.clone()),
                None => None,
            },
            file: match &self.logging.file {
                Some(f) => Some(f.clone()),
                None => None,
            },
            max_connections: self.database.max_connections,
        }
    }
}

} // verus!
