use dusty_shelf::config::{
    get_config, get_profile, parse_port, ConfigError, Environment, LogLevel, Profile,
    ShutdownSettings, DEFAULT_HOST_ADDRESS, DEFAULT_PORT_NUMBER, JSON_LIMIT, WORKERS,
};

fn environment(profile: &str) -> Environment {
    Environment {
        database_url: Some(String::from("postgres://shelf@localhost/books")),
        jwt_secret: Some(String::from("dust")),
        host_address: None,
        port_number: None,
        profile: Some(String::from(profile)),
        mock_database: false,
    }
}

#[test]
fn defaults_are_what_the_service_documents() {
    assert_eq!(DEFAULT_HOST_ADDRESS, "0.0.0.0");
    assert_eq!(DEFAULT_PORT_NUMBER, "8080");
    assert_eq!(WORKERS, 10);
    assert_eq!(JSON_LIMIT, 102400);
}

#[test]
fn port_is_read_as_sixteen_bits() {
    assert_eq!(parse_port("8080"), Some(8080));
    assert_eq!(parse_port("+8080"), Some(8080));
    assert_eq!(parse_port("0"), Some(0));
    assert_eq!(parse_port("65535"), Some(65535));
    assert_eq!(parse_port("0000080"), Some(80));
}

#[test]
fn port_that_is_no_port_is_refused() {
    assert_eq!(parse_port("65536"), None);
    assert_eq!(parse_port("-1"), None);
    assert_eq!(parse_port(""), None);
    assert_eq!(parse_port("+"), None);
    assert_eq!(parse_port("++1"), None);
    assert_eq!(parse_port("80 "), None);
    assert_eq!(parse_port("http"), None);
    assert_eq!(parse_port("99999999999999999999"), None);
}

#[test]
fn port_is_read_as_the_standard_library_reads_it() {
    for text in ["8080", "+1", "-1", "", "+", "65535", "65536", "007", "8 0", "٨٠"] {
        assert_eq!(parse_port(text), text.parse::<u16>().ok(), "{}", text);
    }
}

#[test]
fn profile_is_debug_or_release() {
    assert!(matches!(get_profile(Some("debug")), Ok(Profile::Debug)));
    assert!(matches!(get_profile(Some("release")), Ok(Profile::Release)));
}

#[test]
fn profile_that_is_missing_or_unknown_is_an_error() {
    assert!(matches!(get_profile(None), Err(ConfigError::MissingProfile)));
    match get_profile(Some("staging")) {
        Err(ConfigError::UnknownProfile(text)) => assert_eq!(text, "staging"),
        other => panic!("unexpected: {:?}", other),
    }
    assert!(matches!(get_profile(Some("Debug")), Err(ConfigError::UnknownProfile(_))));
    assert!(matches!(get_profile(Some("")), Err(ConfigError::UnknownProfile(_))));
}

#[test]
fn debug_settings() {
    let settings = get_config(&environment("debug")).unwrap();
    assert_eq!(settings.profile, Profile::Debug);
    assert_eq!(settings.database_url, "postgres://shelf@localhost/books");
    assert_eq!(settings.jwt_secret, "dust");
    assert_eq!(settings.pool_size, 32);
    assert_eq!(settings.address, "0.0.0.0");
    assert_eq!(settings.port, 8080);
    assert_eq!(settings.workers, 10);
    assert_eq!(settings.keep_alive, 0);
    assert_eq!(settings.json_limit, 102400);
    assert_eq!(settings.log_level, LogLevel::Normal);
    assert_eq!(
        settings.shutdown,
        Some(ShutdownSettings {
            ctrlc: true,
            on_terminate: true,
            on_hangup: true,
            grace: 1,
            mercy: 1,
            force: true
        })
    );
    assert!(settings.cli_colors);
}

#[test]
fn release_settings() {
    let settings = get_config(&environment("release")).unwrap();
    assert_eq!(settings.profile, Profile::Release);
    assert_eq!(settings.pool_size, 32);
    assert_eq!(settings.workers, 10);
    assert_eq!(settings.keep_alive, 0);
    assert_eq!(settings.json_limit, 102400);
    assert_eq!(settings.log_level, LogLevel::Critical);
    assert_eq!(settings.shutdown, None);
    assert!(!settings.cli_colors);
}

#[test]
fn host_and_port_come_from_the_environment_when_set() {
    let mut env = environment("release");
    env.host_address = Some(String::from("127.0.0.1"));
    env.port_number = Some(String::from("9000"));
    let settings = get_config(&env).unwrap();
    assert_eq!(settings.address, "127.0.0.1");
    assert_eq!(settings.port, 9000);
}

#[test]
fn mock_database_has_one_connection() {
    let mut env = environment("debug");
    env.mock_database = true;
    assert_eq!(get_config(&env).unwrap().pool_size, 1);
}

#[test]
fn missing_database_url_is_the_first_error() {
    let env = Environment {
        database_url: None,
        jwt_secret: None,
        host_address: None,
        port_number: Some(String::from("not a port")),
        profile: None,
        mock_database: false,
    };
    assert!(matches!(get_config(&env), Err(ConfigError::MissingDatabaseUrl)));
}

#[test]
fn missing_secret_comes_before_port_and_profile() {
    let mut env = environment("staging");
    env.jwt_secret = None;
    env.port_number = Some(String::from("70000"));
    assert!(matches!(get_config(&env), Err(ConfigError::MissingJwtSecret)));
}

#[test]
fn invalid_port_comes_before_the_profile() {
    let mut env = environment("staging");
    env.port_number = Some(String::from("70000"));
    assert!(matches!(get_config(&env), Err(ConfigError::InvalidPort)));
}

#[test]
fn profile_errors_come_last() {
    let mut env = environment("staging");
    match get_config(&env).err() {
        Some(ConfigError::UnknownProfile(text)) => assert_eq!(text, "staging"),
        other => panic!("unexpected: {:?}", other),
    }
    env.profile = None;
    assert!(matches!(get_config(&env), Err(ConfigError::MissingProfile)));
}
