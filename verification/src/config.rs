//! The configuration of the process, assembled from the values of its
//! environment variables.

use crate::auth::actor::AuthManager;
use vstd::prelude::*;
use vstd::string::{StrSliceExecFns, StringExecFns};

verus! {

/// The settings that the process runs with.
#[derive(Clone, Debug, PartialEq, Eq)]
pub struct Config {
    pub host: String,
    pub port: u16,
    pub database_url: String,
    pub jwt_secret: String,
    pub jwt_expiration_duration: u32,
    pub redis_server_url: String,
    pub redis_server_get_connection_timeout: u64,
    pub cors_allow_all: u8,
}

/// The environment variables that the configuration is read from, in the
/// order in which they are read.
#[derive(Clone, Copy, Debug, PartialEq, Eq, Structural)]
pub enum EnvVar {
    Host,
    Port,
    DatabaseUrl,
    JwtSecret,
    JwtExpirationDuration,
    RedisServerUrl,
    RedisServerGetConnectionTimeout,
    CorsAllowAll,
}

/// The values of the environment variables, each as it was found: `None`
/// where the variable is not set.
#[derive(Clone, Debug, PartialEq, Eq)]
pub struct Environment {
    pub host: Option<String>,
    pub port: Option<String>,
    pub database_url: Option<String>,
    pub jwt_secret: Option<String>,
    pub jwt_expiration_duration: Option<String>,
    pub redis_server_url: Option<String>,
    pub redis_server_get_connection_timeout: Option<String>,
    pub cors_allow_all: Option<String>,
}

/// Why no configuration could be assembled.
#[derive(Clone, Copy, Debug, PartialEq, Eq, Structural)]
pub enum ConfigError {
    NotSet(EnvVar),
    CannotBeParsed(EnvVar),
}

/// Whether `c` is one of the ten decimal digits.
pub open spec fn is_digit(c: char) -> bool {
    '0' <= c <= '9'
}

/// The number that a decimal digit stands for.
pub open spec fn digit_value(c: char) -> int {
    c as int - '0' as int
}

/// Whether `text` is made of decimal digits only.
pub open spec fn all_digits(text: Seq<char>) -> bool {
    forall|i: int| 0 <= i < text.len() ==> is_digit(#[trigger] text[i])
}

/// The number that a sequence of decimal digits stands for.
pub open spec fn digits_value(digits: Seq<char>) -> int
    decreases digits.len(),
{
    if digits.len() == 0 {
        0
    } else {
        digits_value(digits.drop_last()) * 10 + digit_value(digits.last())
    }
}

/// `text` without the plus sign that may lead it.
pub open spec fn unsigned_part(text: Seq<char>) -> Seq<char> {
    if text.len() > 0 && text[0] == '+' {
        text.drop_first()
    } else {
        text
    }
}

/// The number up to `max` that `text` is the decimal notation of: one or more
/// digits, with or without a leading plus sign, and nothing else.
pub open spec fn decimal(text: Seq<char>, max: int) -> Option<int> {
    let digits = unsigned_part(text);
    if digits.len() > 0 && all_digits(digits) && digits_value(digits) <= max {
        Some(digits_value(digits))
    } else {
        None
    }
}

/// A sequence of digits stands for at least as much as each of its prefixes.
proof fn lemma_prefix_value(digits: Seq<char>, n: int)
    requires
        all_digits(digits),
        0 <= n <= digits.len(),
    ensures
        0 <= digits_value(digits.take(n)) <= digits_value(digits),
    decreases digits.len() - n,
{
    if n == digits.len() {
        assert(digits.take(n) == digits);
        lemma_value_is_natural(digits);
    } else {
        lemma_prefix_step(digits, n);
        lemma_prefix_value(digits, n + 1);
    }
}

/// A sequence of digits stands for a natural number.
proof fn lemma_value_is_natural(digits: Seq<char>)
    requires
        all_digits(digits),
    ensures
        digits_value(digits) >= 0,
    decreases digits.len(),
{
    if digits.len() > 0 {
        assert(all_digits(digits.drop_last()));
        lemma_value_is_natural(digits.drop_last());
    }
}

/// One more digit multiplies the value by ten and adds the digit.
proof fn lemma_prefix_step(digits: Seq<char>, n: int)
    requires
        0 <= n < digits.len(),
    ensures
        digits_value(digits.take(n + 1)) == digits_value(digits.take(n)) * 10 + digit_value(
            digits[n],
        ),
        all_digits(digits) ==> all_digits(digits.take(n)),
{
    assert(digits.take(n + 1).drop_last() == digits.take(n));
    if all_digits(digits) {
        assert(all_digits(digits.take(n)));
    }
}

/// Reads `text` as a decimal number of at most `max`.
pub fn parse_decimal(text: &str, max: u64) -> (value: Option<u64>)
    ensures
        match value {
            Some(v) => decimal(text@, max as int) == Some(v as int),
            None => decimal(text@, max as int).is_none(),
        },
{
    let len: usize = text.unicode_len();
    let start: usize = if len > 0 && text.get_char(0) == '+' {
        1
    } else {
        0
    };
    if start == len {
        return None;
    }
    let ghost digits = unsigned_part(text@);
    let mut value: u64 = 0;
    let mut i: usize = start;
    while i < len
        invariant
            start <= i <= len,
            len == text@.len(),
            digits == text@.subrange(start as int, len as int),
            digits == unsigned_part(text@),
            all_digits(digits.take(i - start)),
            value == digits_value(digits.take(i - start)),
            value <= max,
        decreases len - i,
    {
        let c: char = text.get_char(i);
        if c < '0' || c > '9' {
            assert(!is_digit(digits[i - start]));
            return None;
        }
        let digit: u64 = (c as u32 - '0' as u32) as u64;
        proof {
            lemma_prefix_step(digits, i - start);
            assert(all_digits(digits.take(i - start + 1)));
        }
        if digit > max || value > (max - digit) / 10 {
            proof {
                if all_digits(digits) {
                    lemma_prefix_value(digits, i - start + 1);
                }
            }
            return None;
        }
        value = value * 10 + digit;
        i += 1;
    }
    assert(digits.take(i - start) == digits);
    Some(value)
}

/// The text that reports a variable that is not set.
pub fn env_var_not_set_msg(env_var: &str) -> (msg: String)
    ensures
        msg@ == "Environment variable `"@ + env_var@ + "` not set"@,
{
    let mut msg = String::from_str("Environment variable `");
    msg.append(env_var);
    msg.append("` not set");
    msg
}

/// The text that reports a variable whose value is not of the expected kind.
pub fn env_var_parsing_error_msg(env_var: &str) -> (msg: String)
    ensures
        msg@ == "Environment variable `"@ + env_var@ + "` cannot be parsed"@,
{
    let mut msg = String::from_str("Environment variable `");
    msg.append(env_var);
    msg.append("` cannot be parsed");
    msg
}

impl EnvVar {
    /// The name of the variable.
    pub open spec fn name_text(self) -> Seq<char> {
        match self {
            EnvVar::Host => "HOST"@,
            EnvVar::Port => "PORT"@,
            EnvVar::DatabaseUrl => "DATABASE_URL"@,
            EnvVar::JwtSecret => "JWT_SECRET"@,
            EnvVar::JwtExpirationDuration => "JWT_EXPIRATION_DURATION"@,
            EnvVar::RedisServerUrl => "REDIS_SERVER_URL"@,
            EnvVar::RedisServerGetConnectionTimeout => "REDIS_SERVER_GET_CONNECTION_TIMEOUT"@,
            EnvVar::CorsAllowAll => "CORS_ALLOW_ALL"@,
        }
    }

    /// The largest number that the variable may hold; `None` for a variable
    /// that holds text.
    pub open spec fn limit(self) -> Option<int> {
        match self {
            EnvVar::Port => Some(u16::MAX as int),
            EnvVar::JwtExpirationDuration => Some(u32::MAX as int),
            EnvVar::RedisServerGetConnectionTimeout => Some(u64::MAX as int),
            EnvVar::CorsAllowAll => Some(u8::MAX as int),
            _ => None,
        }
    }

    /// The name of the variable.
    pub fn name(&self) -> (text: &'static str)
        ensures
            text@ == self.name_text(),
    {
        match self {
            EnvVar::Host => "HOST",
            EnvVar::Port => "PORT",
            EnvVar::DatabaseUrl => "DATABASE_URL",
            EnvVar::JwtSecret => "JWT_SECRET",
            EnvVar::JwtExpirationDuration => "JWT_EXPIRATION_DURATION",
            EnvVar::RedisServerUrl => "REDIS_SERVER_URL",
            EnvVar::RedisServerGetConnectionTimeout => "REDIS_SERVER_GET_CONNECTION_TIMEOUT",
            EnvVar::CorsAllowAll => "CORS_ALLOW_ALL",
        }
    }
}

impl ConfigError {
    /// The text that reports the error.
    pub open spec fn message_text(self) -> Seq<char> {
        match self {
            ConfigError::NotSet(var) => "Environment variable `"@ + var.name_text()
                + "` not set"@,
            ConfigError::CannotBeParsed(var) => "Environment variable `"@ + var.name_text()
                + "` cannot be parsed"@,
        }
    }

    /// The text that reports the error.
    pub fn message(&self) -> (msg: String)
        ensures
            msg@ == self.message_text(),
    {
        match self {
            ConfigError::NotSet(var) => env_var_not_set_msg(var.name()),
            ConfigError::CannotBeParsed(var) => env_var_parsing_error_msg(var.name()),
        }
    }
}

/// What is wrong with the value found for `var`, if anything: it is missing,
/// or the variable holds a number and the value is not the notation of one
/// within the variable's limit.
pub open spec fn fault_of(var: EnvVar, raw: Option<String>) -> Option<ConfigError> {
    match raw {
        None => Some(ConfigError::NotSet(var)),
        Some(text) => match var.limit() {
            Some(max) if decimal(text@, max).is_none() => Some(ConfigError::CannotBeParsed(var)),
            _ => None,
        },
    }
}

/// Reads the value found for a variable that holds text.
fn read_text(var: EnvVar, raw: &Option<String>) -> (outcome: Result<String, ConfigError>)
    requires
        var.limit().is_none(),
    ensures
        match outcome {
            Ok(text) => fault_of(var, *raw).is_none() && Some(text) == *raw,
            Err(error) => fault_of(var, *raw) == Some(error),
        },
{
    match raw {
        None => Err(ConfigError::NotSet(var)),
        Some(text) => Ok(text.clone()),
    }
}

/// Reads the value found for a variable that holds a number of at most `max`.
fn read_number(var: EnvVar, raw: &Option<String>, max: u64) -> (outcome: Result<
    u64,
    ConfigError,
>)
    requires
        var.limit() == Some(max as int),
    ensures
        match outcome {
            Ok(value) => fault_of(var, *raw).is_none() && raw.is_some() && decimal(
                raw.unwrap()@,
                max as int,
            ) == Some(value as int),
            Err(error) => fault_of(var, *raw) == Some(error),
        },
{
    match raw {
        None => Err(ConfigError::NotSet(var)),
        Some(text) => match parse_decimal(text.as_str(), max) {
            Some(value) => Ok(value),
            None => Err(ConfigError::CannotBeParsed(var)),
        },
    }
}

impl Environment {
    /// What is wrong with each variable, in the order in which they are read.
    pub open spec fn faults(self) -> Seq<Option<ConfigError>> {
        seq![
            fault_of(EnvVar::Host, self.host),
            fault_of(EnvVar::Port, self.port),
            fault_of(EnvVar::DatabaseUrl, self.database_url),
            fault_of(EnvVar::JwtSecret, self.jwt_secret),
            fault_of(EnvVar::JwtExpirationDuration, self.jwt_expiration_duration),
            fault_of(EnvVar::RedisServerUrl, self.redis_server_url),
            fault_of(
                EnvVar::RedisServerGetConnectionTimeout,
                self.redis_server_get_connection_timeout,
            ),
            fault_of(EnvVar::CorsAllowAll, self.cors_allow_all),
        ]
    }

    /// Whether `error` is what is wrong with the first variable that has
    /// something wrong with it.
    pub open spec fn first_fault_is(self, error: ConfigError) -> bool {
        exists|i: int|
            0 <= i < self.faults().len() && #[trigger] self.faults()[i] == Some(error) && forall|
                j: int,
            |
                0 <= j < i ==> (#[trigger] self.faults()[j]).is_none()
    }

    /// Whether nothing is wrong with any variable.
    pub open spec fn complete(self) -> bool {
        forall|i: int| 0 <= i < self.faults().len() ==> (#[trigger] self.faults()[i]).is_none()
    }

    /// Whether `config` holds the value of each variable.
    pub open spec fn gives(self, config: Config) -> bool {
        &&& self.host == Some(config.host)
        &&& self.port.is_some() && decimal(self.port.unwrap()@, u16::MAX as int) == Some(
            config.port as int,
        )
        &&& self.database_url == Some(config.database_url)
        &&& self.jwt_secret == Some(config.jwt_secret)
        &&& self.jwt_expiration_duration.is_some() && decimal(
            self.jwt_expiration_duration.unwrap()@,
            u32::MAX as int,
        ) == Some(config.jwt_expiration_duration as int)
        &&& self.redis_server_url == Some(config.redis_server_url)
        &&& self.redis_server_get_connection_timeout.is_some() && decimal(
            self.redis_server_get_connection_timeout.unwrap()@,
            u64::MAX as int,
        ) == Some(config.redis_server_get_connection_timeout as int)
        &&& self.cors_allow_all.is_some() && decimal(
            self.cors_allow_all.unwrap()@,
            u8::MAX as int,
        ) == Some(config.cors_allow_all as int)
    }
}

/// Goes through the variables in their order and reads each; stops at the
/// first one that is not set or cannot be parsed.
fn read_all(env: &Environment) -> (outcome: Result<Config, ConfigError>)
    ensures
        match outcome {
            Ok(config) => env.complete() && env.gives(config),
            Err(error) => !env.complete() && env.first_fault_is(error),
        },
{
    let host = read_text(EnvVar::Host, &env.host)?;
    let port: u64 = read_number(EnvVar::Port, &env.port, 65535)?;
    let database_url = read_text(EnvVar::DatabaseUrl, &env.database_url)?;
    let jwt_secret = read_text(EnvVar::JwtSecret, &env.jwt_secret)?;
    let jwt_expiration_duration: u64 = read_number(
        EnvVar::JwtExpirationDuration,
        &env.jwt_expiration_duration,
        4294967295,
    )?;
    let redis_server_url = read_text(EnvVar::RedisServerUrl, &env.redis_server_url)?;
    let redis_server_get_connection_timeout: u64 = read_number(
        EnvVar::RedisServerGetConnectionTimeout,
        &env.redis_server_get_connection_timeout,
        u64::MAX,
    )?;
    let cors_allow_all: u64 = read_number(EnvVar::CorsAllowAll, &env.cors_allow_all, 255)?;
    Ok(
        Config {
            host,
            port: port as u16,
            database_url,
            jwt_secret,
            jwt_expiration_duration: jwt_expiration_duration as u32,
            redis_server_url,
            redis_server_get_connection_timeout,
            cors_allow_all: cors_allow_all as u8,
        },
    )
}

impl Environment {
    /// What keeps a configuration from being assembled, if anything: the
    /// first variable, in the order in which they are read, that is not set or
    /// cannot be parsed. `None` says that the environment is complete.
    pub fn first_fault(&self) -> (fault: Option<ConfigError>)
        ensures
            match fault {
                None => self.complete(),
                Some(error) => !self.complete() && self.first_fault_is(error),
            },
    {
        match read_all(self) {
            Ok(_) => None,
            Err(error) => Some(error),
        }
    }
}

impl Config {
    /// Assembles the configuration from a complete environment: each field
    /// holds the value of its variable, and nothing is filled in. Whether an
    /// environment is complete is for the caller to find out first, with
    /// `Environment::first_fault`.
    pub fn from_env(env: &Environment) -> (config: Config)
        requires
            env.complete(),
        ensures
            env.gives(config),
    {
        read_all(env).unwrap()
    }

    /// The address that the server listens on.
    pub fn host(&self) -> (host: String)
        ensures
            host == self.host,
    {
        self.host.clone()
    }

    /// The port that the server listens on.
    pub fn port(&self) -> (port: u16)
        ensures
            port == self.port,
    {
        self.port
    }

    /// The token service that the configuration asks for, with the cache
    /// handle that could be built from it, if any.
    pub fn auth_mgr<C>(&self, cache: Option<C>) -> (manager: AuthManager<C>)
        ensures
            manager.codec().secret() == self.jwt_secret@,
            manager.codec().lifetime() == self.jwt_expiration_duration,
            manager == match cache {
                Some(handle) => AuthManager::RedisAuthManager(manager.codec(), handle),
                None => AuthManager::SimpleAuthManager(manager.codec()),
            },
    {
        AuthManager::new(self.jwt_secret.clone(), self.jwt_expiration_duration, cache)
    }

    /// Whether requests from any origin are to be let in.
    pub fn cors(&self) -> (permissive: bool)
        ensures
            permissive == (self.cors_allow_all == 1),
    {
        self.cors_allow_all == 1
    }
}

} // verus!
