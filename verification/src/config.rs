//! The settings the server is started with, worked out from what the
//! environment provides.

use vstd::prelude::*;
use vstd::string::*;
use crate::text::{bounded_number, parse_digits, same_text};

verus! {

/// The two ways the server can be run.
#[derive(Debug, Clone, Copy, PartialEq, Eq, Structural)]
pub enum Profile {
    Debug,
    Release,
}

/// How much the server writes to its log.
#[derive(Debug, Clone, Copy, PartialEq, Eq, Structural)]
pub enum LogLevel {
    Normal,
    Critical,
}

/// How the server reacts when it is asked to stop.
#[derive(Debug, Clone, Copy, PartialEq, Eq, Structural)]
pub struct ShutdownSettings {
    pub ctrlc: bool,
    pub on_terminate: bool,
    pub on_hangup: bool,
    pub grace: u32,
    pub mercy: u32,
    pub force: bool,
}

/// What the environment provides. A variable that is not set is `None`.
pub struct Environment {
    pub database_url: Option<String>,
    pub jwt_secret: Option<String>,
    pub host_address: Option<String>,
    pub port_number: Option<String>,
    pub profile: Option<String>,
    /// Whether the database is a stand-in with a single connection.
    pub mock_database: bool,
}

/// Everything the server needs to know to start. It holds the secret, so
/// it is not to be printed.
pub struct ServerSettings {
    pub profile: Profile,
    pub database_url: String,
    /// The secret that bearer tokens are signed with.
    pub jwt_secret: String,
    pub pool_size: u32,
    pub address: String,
    pub port: u16,
    pub workers: usize,
    pub keep_alive: u32,
    pub json_limit: u64,
    pub log_level: LogLevel,
    /// `None` leaves the server's own way of stopping untouched.
    pub shutdown: Option<ShutdownSettings>,
    pub cli_colors: bool,
}

/// Why no settings could be worked out.
#[derive(Debug)]
pub enum ConfigError {
    MissingDatabaseUrl,
    MissingJwtSecret,
    InvalidPort,
    MissingProfile,
    UnknownProfile(String),
}

/// The address the server listens on when none is given.
pub const DEFAULT_HOST_ADDRESS: &'static str = "0.0.0.0";

/// The port the server listens on when none is given.
pub const DEFAULT_PORT_NUMBER: &'static str = "8080";

/// How many workers serve requests.
pub const WORKERS: usize = 10;

/// The largest JSON body the server reads, in bytes.
pub const JSON_LIMIT: u64 = 102400;

/// The digits of a numeral: what follows one leading `+`, or all of it.
pub open spec fn numeral_digits(text: Seq<char>) -> Seq<char> {
    if text.len() > 0 && text[0] == '+' {
        text.skip(1)
    } else {
        text
    }
}

/// The port a text writes: at least one digit, nothing but digits after an
/// optional leading `+`, and a value that fits in sixteen bits.
pub open spec fn port_of(text: Seq<char>) -> Option<u16> {
    match bounded_number(numeral_digits(text), 65535) {
        Some(n) => Some(n as u16),
        None => None,
    }
}

/// The profile a text names.
pub open spec fn profile_of(text: Seq<char>) -> Option<Profile> {
    if text == "debug"@ {
        Some(Profile::Debug)
    } else if text == "release"@ {
        Some(Profile::Release)
    } else {
        None
    }
}

/// Reads a port number.
pub fn parse_port(text: &str) -> (port: Option<u16>)
    ensures
        port == port_of(text@),
{
    let len: usize = text.unicode_len();
    let start: usize = if len > 0 && text.get_char(0) == '+' {
        1
    } else {
        0
    };
    assert(numeral_digits(text@) =~= text@.skip(start as int));
    match parse_digits(text, start, 65535) {
        Some(n) => Some(n as u16),
        None => None,
    }
}

/// Reads which profile the server is to run under. The text must be
/// `debug` or `release`.
pub fn get_profile(value: Option<&str>) -> (r: Result<Profile, ConfigError>)
    ensures
        match r {
            Ok(p) => value is Some && profile_of(value->0@) == Some(p),
            Err(ConfigError::MissingProfile) => value is None,
            Err(ConfigError::UnknownProfile(text)) => value is Some && text@ == value->0@
                && profile_of(value->0@) is None,
            Err(_) => false,
        },
{
    match value {
        None => Err(ConfigError::MissingProfile),
        Some(text) => {
            if same_text(text, "debug") {
                Ok(Profile::Debug)
            } else if same_text(text, "release") {
                Ok(Profile::Release)
            } else {
                Err(ConfigError::UnknownProfile(text.to_owned()))
            }
        },
    }
}

/// The text of an environment variable, or `default` where it is not set.
pub open spec fn text_or(value: Option<String>, default: Seq<char>) -> Seq<char> {
    match value {
        Some(text) => text@,
        None => default,
    }
}

/// How the server stops under the debug profile.
pub open spec fn debug_shutdown() -> ShutdownSettings {
    ShutdownSettings {
        ctrlc: true,
        on_terminate: true,
        on_hangup: true,
        grace: 1,
        mercy: 1,
        force: true,
    }
}

/// Whether `settings` are the ones `env` asks for under `profile`, with
/// the port `port`.
pub open spec fn settings_match(
    settings: ServerSettings,
    env: Environment,
    profile: Profile,
    port: u16,
) -> bool {
    &&& env.database_url is Some
    &&& settings.database_url@ == env.database_url->0@
    &&& env.jwt_secret is Some
    &&& settings.jwt_secret@ == env.jwt_secret->0@
    &&& settings.profile == profile
    &&& settings.pool_size == if env.mock_database {
        1u32
    } else {
        32u32
    }
    &&& settings.address@ == text_or(env.host_address, DEFAULT_HOST_ADDRESS@)
    &&& settings.port == port
    &&& settings.workers == WORKERS
    &&& settings.keep_alive == 0
    &&& settings.json_limit == JSON_LIMIT
    &&& settings.log_level == match profile {
        Profile::Debug => LogLevel::Normal,
        Profile::Release => LogLevel::Critical,
    }
    &&& settings.shutdown == match profile {
        Profile::Debug => Some(debug_shutdown()),
        Profile::Release => None::<ShutdownSettings>,
    }
    &&& settings.cli_colors == (profile == Profile::Debug)
}

/// The port `env` asks for.
pub open spec fn wanted_port(env: Environment) -> Option<u16> {
    port_of(text_or(env.port_number, DEFAULT_PORT_NUMBER@))
}

/// The profile `env` asks for.
pub open spec fn wanted_profile(env: Environment) -> Option<Profile> {
    match env.profile {
        Some(text) => profile_of(text@),
        None => None,
    }
}

/// Works out the server's settings. The database address must be given,
/// then the secret for the tokens, then the port must read as a port, then
/// the profile must be known: the first of these that fails is the error.
pub fn get_config(env: &Environment) -> (r: Result<ServerSettings, ConfigError>)
    ensures
        match r {
            Ok(settings) => wanted_port(*env) is Some && wanted_profile(*env) is Some
                && settings_match(
                settings,
                *env,
                wanted_profile(*env)->0,
                wanted_port(*env)->0,
            ),
            Err(ConfigError::MissingDatabaseUrl) => env.database_url is None,
            Err(ConfigError::MissingJwtSecret) => env.database_url is Some && env.jwt_secret
                is None,
            Err(ConfigError::InvalidPort) => env.database_url is Some && env.jwt_secret is Some
                && wanted_port(*env) is None,
            Err(ConfigError::MissingProfile) => env.database_url is Some && env.jwt_secret
                is Some && wanted_port(*env) is Some && env.profile is None,
            Err(ConfigError::UnknownProfile(text)) => env.database_url is Some && env.jwt_secret
                is Some && wanted_port(*env) is Some && env.profile is Some && text@
                == env.profile->0@ && wanted_profile(*env) is None,
        },
{
    let database_url: String = match &env.database_url {
        Some(url) => url.clone(),
        None => {
            return Err(ConfigError::MissingDatabaseUrl);
        },
    };
    let jwt_secret: String = match &env.jwt_secret {
        Some(secret) => secret.clone(),
        None => {
            return Err(ConfigError::MissingJwtSecret);
        },
    };
    let pool_size: u32 = if env.mock_database {
        1
    } else {
        32
    };
    let address: String = match &env.host_address {
        Some(host) => host.clone(),
        None => DEFAULT_HOST_ADDRESS.to_owned(),
    };
    let port_text: &str = match &env.port_number {
        Some(port) => port.as_str(),
        None => DEFAULT_PORT_NUMBER,
    };
    let port: u16 = match parse_port(port_text) {
        Some(port) => port,
        None => {
            return Err(ConfigError::InvalidPort);
        },
    };
    let profile_text: Option<&str> = match &env.profile {
        Some(text) => Some(text.as_str()),
        None => None,
    };
    let profile: Profile = match get_profile(profile_text) {
        Ok(profile) => profile,
        Err(e) => {
            return Err(e);
        },
    };
    let settings = match profile {
        Profile::Debug => ServerSettings {
            profile,
            database_url,
            jwt_secret,
            pool_size,
            address,
            port,
            workers: WORKERS,
            keep_alive: 0,
            json_limit: JSON_LIMIT,
            log_level: LogLevel::Normal,
            shutdown: Some(
                ShutdownSettings {
                    ctrlc: true,
                    on_terminate: true,
                    on_hangup: true,
                    grace: 1,
                    mercy: 1,
                    force: true,
                },
            ),
            cli_colors: true,
        },
        Profile::Release => ServerSettings {
            profile,
            database_url,
            jwt_secret,
            pool_size,
            address,
            port,
            workers: WORKERS,
            keep_alive: 0,
            json_limit: JSON_LIMIT,
            log_level: LogLevel::Critical,
            shutdown: None,
            cli_colors: false,
        },
    };
    Ok(settings)
}

} // verus!
