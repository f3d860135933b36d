use api::config::{
    create_cors, parse_port, AppConfig, ConfigError, CORS_MAX_AGE, DEFAULT_SERVER_PORT,
    MAX_CONNECTIONS,
};

fn some(text: &str) -> Option<String> {
    Some(text.to_string())
}

#[test]
fn port_parser_agrees_with_the_standard_library_on_numbers() {
    for number in 0u32..=70_000 {
        let plain = number.to_string();
        assert_eq!(parse_port(&plain), plain.parse::<u16>().ok(), "{:?}", plain);
        let signed = format!("+{}", number);
        assert_eq!(parse_port(&signed), signed.parse::<u16>().ok(), "{:?}", signed);
        let padded = format!("000{}", number);
        assert_eq!(parse_port(&padded), padded.parse::<u16>().ok(), "{:?}", padded);
    }
}

#[test]
fn port_parser_agrees_with_the_standard_library_on_odd_texts() {
    for text in [
        "", "+", "-", "++1", "+-1", "-1", "-0", " 80", "80 ", "8 0", "8a", "a8", "0x50", "80.0",
        "1_000", "٣", "８０", "+", "65535", "65536", "99999999999999999999", "00000000000000000080",
        "4294967296", "4294967376", "+0", "0", "\u{0}", "8080\n",
    ] {
        assert_eq!(parse_port(text), text.parse::<u16>().ok(), "{:?}", text);
    }
}

#[test]
fn port_numbers_at_the_limits() {
    assert_eq!(parse_port("8080"), Some(8080));
    assert_eq!(parse_port("0"), Some(0));
    assert_eq!(parse_port("65535"), Some(65535));
    assert_eq!(parse_port("65536"), None);
    assert_eq!(parse_port("+443"), Some(443));
    assert_eq!(parse_port(""), None);
}

#[test]
fn settings_fall_back_to_the_defaults() {
    let config = AppConfig::from_vars(some("mysql://db/app"), None, None, None).unwrap();
    assert_eq!(
        config,
        AppConfig {
            database_url: "mysql://db/app".to_string(),
            cors_origin: "http://localhost:4200".to_string(),
            server_host: "127.0.0.1".to_string(),
            server_port: 8080,
        }
    );
    assert_eq!(DEFAULT_SERVER_PORT, 8080);
}

#[test]
fn settings_take_what_is_given() {
    let config = AppConfig::from_vars(
        some("mysql://db/app"),
        some("https://shop.example.com"),
        some("0.0.0.0"),
        some("9000"),
    )
    .unwrap();
    assert_eq!(
        config,
        AppConfig {
            database_url: "mysql://db/app".to_string(),
            cors_origin: "https://shop.example.com".to_string(),
            server_host: "0.0.0.0".to_string(),
            server_port: 9000,
        }
    );
}

#[test]
fn settings_need_the_database_address() {
    assert_eq!(
        AppConfig::from_vars(None, None, None, None),
        Err(ConfigError::MissingDatabaseUrl)
    );
    assert_eq!(
        AppConfig::from_vars(None, None, None, some("not a port")),
        Err(ConfigError::MissingDatabaseUrl)
    );
}

#[test]
fn settings_need_a_port_number_where_a_port_is_given() {
    for port in ["", "http", "70000", "-1", " 8080"] {
        assert_eq!(
            AppConfig::from_vars(some("mysql://db/app"), None, None, some(port)),
            Err(ConfigError::InvalidServerPort),
            "{:?}",
            port
        );
    }
}

#[test]
fn cors_policy_for_an_origin() {
    let policy = create_cors("http://localhost:4200");
    assert_eq!(policy.allowed_origin, "http://localhost:4200");
    assert_eq!(policy.allowed_methods, vec!["GET", "POST", "PUT", "DELETE", "PATCH"]);
    assert_eq!(policy.allowed_headers, vec!["Content-Type", "Authorization"]);
    assert_eq!(policy.max_age, 3600);
    assert_eq!(CORS_MAX_AGE, 3600);
}

#[test]
fn pool_is_bounded() {
    assert_eq!(MAX_CONNECTIONS, 10);
}
