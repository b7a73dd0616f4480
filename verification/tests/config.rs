use cms_core::auth::actor::AuthManager;
use cms_core::config::{
    env_var_not_set_msg, env_var_parsing_error_msg, parse_decimal, Config, ConfigError, EnvVar,
    Environment,
};

fn text(value: &str) -> Option<String> {
    Some(value.to_string())
}

fn full() -> Environment {
    Environment {
        host: text("127.0.0.1"),
        port: text("8080"),
        database_url: text("postgres://cms@localhost/cms"),
        jwt_secret: text("top-secret"),
        jwt_expiration_duration: text("3600"),
        redis_server_url: text("redis://localhost"),
        redis_server_get_connection_timeout: text("5"),
        cors_allow_all: text("1"),
    }
}

fn expected() -> Config {
    Config {
        host: "127.0.0.1".to_string(),
        port: 8080,
        database_url: "postgres://cms@localhost/cms".to_string(),
        jwt_secret: "top-secret".to_string(),
        jwt_expiration_duration: 3600,
        redis_server_url: "redis://localhost".to_string(),
        redis_server_get_connection_timeout: 5,
        cors_allow_all: 1,
    }
}

/// Assembles the configuration the way a caller is meant to: the test of
/// completeness first.
fn load(env: &Environment) -> Result<Config, ConfigError> {
    match env.first_fault() {
        Some(error) => Err(error),
        None => Ok(Config::from_env(env)),
    }
}

#[test]
fn complete_environment_gives_the_configuration() {
    assert_eq!(full().first_fault(), None);
    assert_eq!(Config::from_env(&full()), expected());
    assert_eq!(load(&full()), Ok(expected()));
}

#[test]
fn getters_return_the_fields() {
    let config = expected();
    assert_eq!(config.host(), "127.0.0.1");
    assert_eq!(config.port(), 8080);
    assert!(config.cors());
}

#[test]
fn only_the_flag_one_opens_the_origins() {
    for (flag, open) in [(0u8, false), (1, true), (2, false), (255, false)] {
        let config = Config { cors_allow_all: flag, ..expected() };
        assert_eq!(config.cors(), open);
    }
}

#[test]
fn limits_of_the_numbers_are_accepted() {
    let env = Environment {
        port: text("65535"),
        jwt_expiration_duration: text("4294967295"),
        redis_server_get_connection_timeout: text("18446744073709551615"),
        cors_allow_all: text("255"),
        ..full()
    };
    let config = load(&env).expect("a configuration");
    assert_eq!(config.port, u16::MAX);
    assert_eq!(config.jwt_expiration_duration, u32::MAX);
    assert_eq!(config.redis_server_get_connection_timeout, u64::MAX);
    assert_eq!(config.cors_allow_all, u8::MAX);
}

#[test]
fn numbers_past_their_limit_cannot_be_parsed() {
    let port = Environment { port: text("65536"), ..full() };
    assert_eq!(load(&port), Err(ConfigError::CannotBeParsed(EnvVar::Port)));
    let duration = Environment { jwt_expiration_duration: text("4294967296"), ..full() };
    assert_eq!(
        load(&duration),
        Err(ConfigError::CannotBeParsed(EnvVar::JwtExpirationDuration))
    );
    let timeout =
        Environment { redis_server_get_connection_timeout: text("18446744073709551616"), ..full() };
    assert_eq!(
        load(&timeout),
        Err(ConfigError::CannotBeParsed(EnvVar::RedisServerGetConnectionTimeout))
    );
    let flag = Environment { cors_allow_all: text("256"), ..full() };
    assert_eq!(load(&flag), Err(ConfigError::CannotBeParsed(EnvVar::CorsAllowAll)));
}

#[test]
fn each_missing_variable_is_reported() {
    assert_eq!(
        load(&Environment { host: None, ..full() }),
        Err(ConfigError::NotSet(EnvVar::Host))
    );
    assert_eq!(
        load(&Environment { port: None, ..full() }),
        Err(ConfigError::NotSet(EnvVar::Port))
    );
    assert_eq!(
        load(&Environment { database_url: None, ..full() }),
        Err(ConfigError::NotSet(EnvVar::DatabaseUrl))
    );
    assert_eq!(
        load(&Environment { jwt_secret: None, ..full() }),
        Err(ConfigError::NotSet(EnvVar::JwtSecret))
    );
    assert_eq!(
        load(&Environment { jwt_expiration_duration: None, ..full() }),
        Err(ConfigError::NotSet(EnvVar::JwtExpirationDuration))
    );
    assert_eq!(
        load(&Environment { redis_server_url: None, ..full() }),
        Err(ConfigError::NotSet(EnvVar::RedisServerUrl))
    );
    assert_eq!(
        load(&Environment { redis_server_get_connection_timeout: None, ..full() }),
        Err(ConfigError::NotSet(EnvVar::RedisServerGetConnectionTimeout))
    );
    assert_eq!(
        load(&Environment { cors_allow_all: None, ..full() }),
        Err(ConfigError::NotSet(EnvVar::CorsAllowAll))
    );
}

#[test]
fn first_fault_in_reading_order_wins() {
    let env = Environment { port: text("http"), jwt_secret: None, cors_allow_all: None, ..full() };
    assert_eq!(load(&env), Err(ConfigError::CannotBeParsed(EnvVar::Port)));
    let env = Environment { host: None, port: text("http"), ..full() };
    assert_eq!(load(&env), Err(ConfigError::NotSet(EnvVar::Host)));
    let env = Environment { jwt_secret: None, jwt_expiration_duration: text("-1"), ..full() };
    assert_eq!(load(&env), Err(ConfigError::NotSet(EnvVar::JwtSecret)));
    let empty = Environment {
        host: None,
        port: None,
        database_url: None,
        jwt_secret: None,
        jwt_expiration_duration: None,
        redis_server_url: None,
        redis_server_get_connection_timeout: None,
        cors_allow_all: None,
    };
    assert_eq!(load(&empty), Err(ConfigError::NotSet(EnvVar::Host)));
}

#[test]
fn text_variables_take_any_text() {
    let env = Environment {
        host: text(""),
        database_url: text("  "),
        jwt_secret: text("12345"),
        redis_server_url: text("\u{fc}n\u{ef}c\u{f6}d\u{e9}"),
        ..full()
    };
    let config = load(&env).expect("a configuration");
    assert_eq!(config.host, "");
    assert_eq!(config.database_url, "  ");
    assert_eq!(config.jwt_secret, "12345");
    assert_eq!(config.redis_server_url, "\u{fc}n\u{ef}c\u{f6}d\u{e9}");
}

#[test]
fn decimal_notation_is_read() {
    assert_eq!(parse_decimal("0", 10), Some(0));
    assert_eq!(parse_decimal("7", 10), Some(7));
    assert_eq!(parse_decimal("10", 10), Some(10));
    assert_eq!(parse_decimal("+10", 10), Some(10));
    assert_eq!(parse_decimal("0010", 10), Some(10));
    assert_eq!(parse_decimal("+0", 0), Some(0));
    assert_eq!(parse_decimal("000", 0), Some(0));
    assert_eq!(parse_decimal("8080", 65_535), Some(8080));
    assert_eq!(parse_decimal("18446744073709551615", u64::MAX), Some(u64::MAX));
    assert_eq!(parse_decimal("00018446744073709551615", u64::MAX), Some(u64::MAX));
}

#[test]
fn what_is_no_decimal_notation_is_turned_down() {
    for text in ["", "+", "-", "-1", "++1", "+-1", "1+", " 1", "1 ", "1_000", "0x10", "1.0", "1e3", "ten", "\u{ff11}\u{ff12}"] {
        assert_eq!(parse_decimal(text, u64::MAX), None);
    }
}

#[test]
fn numbers_above_the_limit_are_turned_down() {
    assert_eq!(parse_decimal("11", 10), None);
    assert_eq!(parse_decimal("100", 10), None);
    assert_eq!(parse_decimal("1", 0), None);
    assert_eq!(parse_decimal("9", 8), None);
    assert_eq!(parse_decimal("18446744073709551616", u64::MAX), None);
    assert_eq!(parse_decimal("99999999999999999999999999", u64::MAX), None);
    assert_eq!(parse_decimal("184467440737095516150", u64::MAX), None);
}

#[test]
fn decimal_notation_agrees_with_the_standard_parser() {
    for text in ["0", "+5", "05", "255", "256", "", "+", "-0", "65535", "65536", "4e2", "12a"] {
        assert_eq!(parse_decimal(text, 255), text.parse::<u8>().ok().map(u64::from));
        assert_eq!(parse_decimal(text, 65_535), text.parse::<u16>().ok().map(u64::from));
        assert_eq!(parse_decimal(text, u64::MAX), text.parse::<u64>().ok());
    }
}

#[test]
fn messages_name_the_variable() {
    assert_eq!(env_var_not_set_msg("HOST"), "Environment variable `HOST` not set");
    assert_eq!(env_var_parsing_error_msg("PORT"), "Environment variable `PORT` cannot be parsed");
    assert_eq!(env_var_not_set_msg(""), "Environment variable `` not set");
    assert_eq!(
        ConfigError::NotSet(EnvVar::RedisServerGetConnectionTimeout).message(),
        "Environment variable `REDIS_SERVER_GET_CONNECTION_TIMEOUT` not set"
    );
    assert_eq!(
        ConfigError::CannotBeParsed(EnvVar::JwtExpirationDuration).message(),
        "Environment variable `JWT_EXPIRATION_DURATION` cannot be parsed"
    );
}

#[test]
fn variables_have_their_names() {
    assert_eq!(EnvVar::Host.name(), "HOST");
    assert_eq!(EnvVar::Port.name(), "PORT");
    assert_eq!(EnvVar::DatabaseUrl.name(), "DATABASE_URL");
    assert_eq!(EnvVar::JwtSecret.name(), "JWT_SECRET");
    assert_eq!(EnvVar::JwtExpirationDuration.name(), "JWT_EXPIRATION_DURATION");
    assert_eq!(EnvVar::RedisServerUrl.name(), "REDIS_SERVER_URL");
    assert_eq!(
        EnvVar::RedisServerGetConnectionTimeout.name(),
        "REDIS_SERVER_GET_CONNECTION_TIMEOUT"
    );
    assert_eq!(EnvVar::CorsAllowAll.name(), "CORS_ALLOW_ALL");
}

#[test]
fn configuration_builds_the_token_service() {
    let config = expected();
    let direct: AuthManager<()> = config.auth_mgr(None);
    assert_eq!(direct.cache(), None);
    let cached: AuthManager<&str> = config.auth_mgr(Some("pool"));
    assert_eq!(cached.cache(), Some(&"pool"));
    let token = direct.create_token_at(3, None, 1_000).token.expect("a token");
    assert_eq!(cached.extract_claim_at(&token, 1_000 + 3_599), Ok(3));
    assert!(!cached.validate_token_at(&token, 1_000 + 3_600));
}

#[test]
fn test_of_completeness_names_the_first_fault() {
    assert_eq!(full().first_fault(), None);
    assert_eq!(
        Environment { port: None, ..full() }.first_fault(),
        Some(ConfigError::NotSet(EnvVar::Port))
    );
    assert_eq!(
        Environment { port: text("eighty"), cors_allow_all: None, ..full() }.first_fault(),
        Some(ConfigError::CannotBeParsed(EnvVar::Port))
    );
    assert_eq!(
        Environment { cors_allow_all: text("-1"), ..full() }.first_fault(),
        Some(ConfigError::CannotBeParsed(EnvVar::CorsAllowAll))
    );
}

#[test]
fn nothing_is_filled_in_for_a_variable() {
    let env = Environment { port: text("0"), cors_allow_all: text("0"), host: text(""), ..full() };
    let config = Config::from_env(&env);
    assert_eq!(config.port, 0);
    assert_eq!(config.cors_allow_all, 0);
    assert_eq!(config.host, "");
    assert_eq!(config.jwt_expiration_duration, 3600);
}
