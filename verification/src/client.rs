//! What the client is started with: logging and connection settings, and
//! the rule that it is started once.

use vstd::prelude::*;

verus! {

/// How severe a message must be to be logged.
#[derive(Clone, Copy, Debug, PartialEq, Eq, Structural)]
pub enum LogLevel {
    /// Critical messages only.
    CRIT,
    /// Warnings and above.
    WARN,
    /// Informational messages and above.
    INFO,
    /// Everything.
    DEBUG,
}

/// Where and how the client logs.
#[derive(Clone, Debug)]
pub struct Logger {
    /// The directory under which log files are stored. Must end with a
    /// trailing slash.
    pub path: String,
    /// The name prefix of the log files.
    pub name: String,
    /// The severity from which messages are logged.
    pub level: LogLevel,
    /// Whether messages are echoed to the console.
    pub console: bool,
}

/// The sizing of the connection pool.
#[allow(non_snake_case)]
#[derive(Clone, Copy, Debug, PartialEq, Eq, Structural)]
pub struct Pool {
    /// The number of connections the pool starts with.
    pub initialSize: u32,
    /// The most connections the pool keeps.
    pub maxPoolSize: u32,
    /// The most connections in use at any one time; those beyond the pool's
    /// size are made and dropped as needed.
    pub maxConnections: u32,
    /// The seconds a connection may stay idle before it is closed.
    pub maxIdleTimeSeconds: u32,
}

/// How to reach the service.
#[derive(Clone, Debug)]
pub struct Configuration {
    /// The sizing of the connection pool.
    pub pool: Pool,
    /// The name of the application, for the service's records.
    pub application: String,
    /// The host name or address of the service.
    pub host: String,
    /// The port the service listens on.
    pub port: u16,
}

impl Logger {
    /// Logging into `dir` under the prefix `name`, from informational
    /// messages upwards and without console echo.
    pub fn new(dir: &str, name: &str) -> (logger: Logger)
        ensures
            logger.path@ == dir@,
            logger.name@ == name@,
            logger.level == LogLevel::INFO,
            !logger.console,
    {
        Logger { path: dir.to_owned(), name: name.to_owned(), level: LogLevel::INFO, console: false }
    }
}

impl Pool {
    /// The default sizing: one initial connection, a pool of at most 25, at
    /// most 100 connections in all, and 300 seconds of idle time.
    pub fn new() -> (pool: Pool)
        ensures
            pool == (Pool { initialSize: 1, maxPoolSize: 25, maxConnections: 100, maxIdleTimeSeconds: 300 }),
    {
        Pool { initialSize: 1, maxPoolSize: 25, maxConnections: 100, maxIdleTimeSeconds: 300 }
    }
}

impl Configuration {
    /// The service at `host:port`, reached on behalf of `app` through a
    /// pool of default sizing.
    pub fn new(app: &str, host: &str, port: u16) -> (configuration: Configuration)
        ensures
            configuration.pool == (Pool {
                initialSize: 1,
                maxPoolSize: 25,
                maxConnections: 100,
                maxIdleTimeSeconds: 300,
            }),
            configuration.application@ == app@,
            configuration.host@ == host@,
            configuration.port == port,
    {
        Configuration { pool: Pool::new(), application: app.to_owned(), host: host.to_owned(), port }
    }
}

/// Whether the process-wide initialisation has taken place.
///
/// The application keeps one of these for the whole process and hands it to
/// every call of [`init`]. There is no way back: once started, a client
/// stays started.
#[derive(Debug)]
pub struct Startup {
    done: bool,
}

impl Startup {
    /// Whether an initialisation has taken effect.
    pub closed spec fn started(self) -> bool {
        self.done
    }

    /// The state of a process in which no initialisation has taken effect.
    pub fn new() -> (startup: Startup)
        ensures
            !startup.started(),
    {
        Startup { done: false }
    }

    /// Tells whether an initialisation has taken effect.
    pub fn is_started(&self) -> (r: bool)
        ensures
            r == self.started(),
    {
        self.done
    }
}

/// Initialises the client, once.
///
/// The first call hands back the settings: the caller then configures the
/// logger and connects to the service with them. Every later call is
/// silently ignored: it hands back nothing, and whatever settings it came
/// with are dropped.
pub fn init(startup: &mut Startup, logger: Logger, config: Configuration) -> (due: Option<(Logger, Configuration)>)
    ensures
        final(startup).started(),
        old(startup).started() ==> due is None,
        !old(startup).started() ==> due == Some((logger, config)),
{
    if startup.done {
        None
    } else {
        startup.done = true;
        Some((logger, config))
    }
}

} // verus!
