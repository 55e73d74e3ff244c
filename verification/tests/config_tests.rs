use bridge::config::{build_config, parse_port, ConfigError, DEFAULT_BROKER_PORT};

fn some(s: &str) -> Option<String> {
    Some(s.to_string())
}

#[test]
fn ports_parse_as_positive_decimal_numbers() {
    assert_eq!(parse_port("1883"), Some(1883));
    assert_eq!(parse_port("1"), Some(1));
    assert_eq!(parse_port("65535"), Some(65535));
    assert_eq!(parse_port("+8883"), Some(8883));
    assert_eq!(parse_port("0008883"), Some(8883));
}

#[test]
fn bad_port_texts_parse_to_nothing() {
    for s in ["", "+", "65536", "99999999999999999999", "-1", "18 83", "1883a", "a1883", "1_883", "0", "+0"] {
        assert_eq!(parse_port(s), None, "text: {s}");
    }
}

#[test]
fn a_missing_secret_is_fatal() {
    let r = build_config(None, some("host"), some("1883"), None, None);
    assert_eq!(r.err(), Some(ConfigError::MissingSecret));
}

#[test]
fn an_invalid_port_is_fatal() {
    for p in ["not-a-port", "0", "65536"] {
        let r = build_config(some("s"), None, some(p), None, None);
        assert_eq!(r.err(), Some(ConfigError::InvalidPort), "port: {p}");
    }
}

#[test]
fn defaults_fill_in_host_and_port() {
    let c = build_config(some("s"), None, None, None, None).expect("the secret suffices");
    assert_eq!(c.secret, "s");
    assert_eq!(c.broker_host, "localhost");
    assert_eq!(c.broker_port, DEFAULT_BROKER_PORT);
    assert!(c.broker_credentials.is_none());
}

#[test]
fn configured_values_are_kept() {
    let c = build_config(some("s"), some("broker.example"), some("8883"), some("u"), some("p"))
        .expect("everything is valid");
    assert_eq!(c.broker_host, "broker.example");
    assert_eq!(c.broker_port, 8883);
    assert_eq!(c.broker_credentials, Some(("u".to_string(), "p".to_string())));
}

#[test]
fn a_half_credential_pair_is_dropped() {
    let c = build_config(some("s"), None, None, some("u"), None).unwrap();
    assert!(c.broker_credentials.is_none());
    let c = build_config(some("s"), None, None, None, some("p")).unwrap();
    assert!(c.broker_credentials.is_none());
}
