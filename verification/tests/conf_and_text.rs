use sip2_mediator::conf::Config;
use sip2_mediator::key::{new_key, session_key, KEY_LENGTH};
use sip2_mediator::text::decimal_text;

fn sample() -> Config {
    Config {
        sip_address: "0.0.0.0".to_string(),
        sip_port: 6001,
        http_host: "backend.example.org".to_string(),
        http_port: 8443,
        http_proto: "https".to_string(),
        http_path: "/sip2-mediator".to_string(),
        syslog_facility: "LOCAL4".to_string(),
        syslog_level: "DEBUG".to_string(),
        max_clients: 3,
        ascii: true,
        daemonize: false,
        ignore_ssl_errors: true,
    }
}

#[test]
fn default_config_has_the_standard_settings() {
    let config = Config::default();
    assert_eq!(config.sip_address, "localhost");
    assert_eq!(config.sip_port, 6001);
    assert_eq!(config.http_host, "localhost");
    assert_eq!(config.http_port, 80);
    assert_eq!(config.http_proto, "http");
    assert_eq!(config.http_path, "/sip2-mediator");
    assert_eq!(config.syslog_facility, "LOCAL0");
    assert_eq!(config.syslog_level, "INFO");
    assert_eq!(config.max_clients, 256);
    assert!(!config.ascii);
    assert!(!config.daemonize);
    assert!(!config.ignore_ssl_errors);
}

#[test]
fn clone_keeps_every_field() {
    let config = sample();
    let copy = config.clone();
    assert_eq!(copy.sip_address, config.sip_address);
    assert_eq!(copy.sip_port, config.sip_port);
    assert_eq!(copy.http_host, config.http_host);
    assert_eq!(copy.http_port, config.http_port);
    assert_eq!(copy.http_proto, config.http_proto);
    assert_eq!(copy.http_path, config.http_path);
    assert_eq!(copy.syslog_facility, config.syslog_facility);
    assert_eq!(copy.syslog_level, config.syslog_level);
    assert_eq!(copy.max_clients, config.max_clients);
    assert_eq!(copy.ascii, config.ascii);
    assert_eq!(copy.daemonize, config.daemonize);
    assert_eq!(copy.ignore_ssl_errors, config.ignore_ssl_errors);
}

#[test]
fn bind_address_joins_address_and_port() {
    assert_eq!(sample().bind_address(), "0.0.0.0:6001");
    assert_eq!(Config::default().bind_address(), "localhost:6001");
}

#[test]
fn backend_url_joins_scheme_host_port_and_path() {
    assert_eq!(sample().backend_url(), "https://backend.example.org:8443/sip2-mediator");
    assert_eq!(Config::default().backend_url(), "http://localhost:80/sip2-mediator");
}

#[test]
fn backend_url_with_empty_path_ends_in_the_port() {
    let mut config = sample();
    config.http_path = String::new();
    assert_eq!(config.backend_url(), "https://backend.example.org:8443");
}

#[test]
fn decimal_text_of_single_digits() {
    assert_eq!(decimal_text(0), "0");
    assert_eq!(decimal_text(7), "7");
    assert_eq!(decimal_text(9), "9");
}

#[test]
fn decimal_text_keeps_inner_and_trailing_zeros() {
    assert_eq!(decimal_text(10), "10");
    assert_eq!(decimal_text(80), "80");
    assert_eq!(decimal_text(6001), "6001");
    assert_eq!(decimal_text(10000), "10000");
}

#[test]
fn decimal_text_of_the_largest_port() {
    assert_eq!(decimal_text(65535), "65535");
}

#[test]
fn decimal_text_agrees_with_the_standard_rendering() {
    let mut n: u16 = 0;
    loop {
        assert_eq!(decimal_text(n), n.to_string());
        if n == u16::MAX {
            break;
        }
        n += 1;
    }
}

#[test]
fn session_key_is_the_first_sixteen_characters() {
    assert_eq!(KEY_LENGTH, 16);
    assert_eq!(session_key("0123456789abcdef0123456789abcdef"), "0123456789abcdef");
    assert_eq!(session_key("fedcba9876543210"), "fedcba9876543210");
    assert_eq!(session_key("fedcba9876543210x"), "fedcba9876543210");
}

#[test]
fn new_key_is_sixteen_lower_case_hex_digits() {
    for _ in 0..200 {
        let key = new_key();
        assert_eq!(key.len(), 16);
        assert!(key.chars().all(|c| c.is_ascii_digit() || ('a'..='f').contains(&c)));
    }
}

#[test]
fn new_keys_differ() {
    let mut keys: Vec<String> = Vec::new();
    for _ in 0..500 {
        keys.push(new_key());
    }
    keys.sort();
    keys.dedup();
    assert_eq!(keys.len(), 500);
}
