use sip2_mediator::conf::{Choices, Config, ConfigError};
use sip2_mediator::logging::{facility_for, level_for, Facility, Level, LogTarget};
use sip2_mediator::text::{parse_u16, parse_up_to, parse_usize};

fn text(value: &str) -> Option<String> {
    Some(value.to_string())
}

fn named(facility: &str, level: &str) -> Config {
    let mut config = Config::default();
    config.syslog_facility = facility.to_string();
    config.syslog_level = level.to_string();
    config
}

fn samples() -> Vec<String> {
    let mut samples: Vec<String> = Vec::new();
    for n in [0u64, 1, 9, 10, 80, 255, 256, 6001, 9999, 65534, 65535, 65536, 99999, 100000] {
        samples.push(n.to_string());
        samples.push(format!("+{}", n));
        samples.push(format!("-{}", n));
        samples.push(format!("000{}", n));
        samples.push(format!(" {}", n));
        samples.push(format!("{} ", n));
        samples.push(format!("{}x", n));
        samples.push(format!("{}_0", n));
        samples.push(format!("0x{}", n));
    }
    for odd in ["", "+", "-", "++1", "+-1", "1+", "\u{661}\u{662}", "1.0", "1e3", "0", "+0", "00000"] {
        samples.push(odd.to_string());
    }
    samples.push(u64::MAX.to_string());
    samples.push(format!("{}0", u64::MAX));
    samples.push("18446744073709551616".to_string());
    samples.push("99999999999999999999999999999999999999".to_string());
    samples.push("00000000000000000000000000000000000042".to_string());
    samples
}

#[test]
fn parse_u16_reads_plain_numerals() {
    assert_eq!(parse_u16("0"), Some(0));
    assert_eq!(parse_u16("80"), Some(80));
    assert_eq!(parse_u16("6001"), Some(6001));
    assert_eq!(parse_u16("65535"), Some(65535));
}

#[test]
fn parse_u16_takes_a_plus_sign_and_leading_zeros() {
    assert_eq!(parse_u16("+80"), Some(80));
    assert_eq!(parse_u16("0080"), Some(80));
    assert_eq!(parse_u16("+0080"), Some(80));
}

#[test]
fn parse_u16_refuses_what_is_no_numeral() {
    for refused in ["", "+", "-", "-1", " 80", "80 ", "8 0", "80a", "0x50", "8_0", "++8", "eighty"] {
        assert_eq!(parse_u16(refused), None, "{:?}", refused);
    }
}

#[test]
fn parse_u16_refuses_numbers_beyond_sixteen_bits() {
    assert_eq!(parse_u16("65536"), None);
    assert_eq!(parse_u16("100000"), None);
    assert_eq!(parse_u16("18446744073709551616"), None);
}

#[test]
fn parse_u16_agrees_with_the_standard_parser() {
    for sample in samples() {
        assert_eq!(parse_u16(&sample), sample.parse::<u16>().ok(), "{:?}", sample);
    }
}

#[test]
fn parse_u16_reads_back_every_number() {
    let mut n: u16 = 0;
    loop {
        assert_eq!(parse_u16(&n.to_string()), Some(n));
        if n == u16::MAX {
            break;
        }
        n += 1;
    }
}

#[test]
fn parse_usize_agrees_with_the_standard_parser() {
    for sample in samples() {
        assert_eq!(parse_usize(&sample), sample.parse::<usize>().ok(), "{:?}", sample);
    }
    assert_eq!(parse_usize(&usize::MAX.to_string()), Some(usize::MAX));
}

#[test]
fn parse_up_to_keeps_to_its_limit() {
    assert_eq!(parse_up_to("10", 10), Some(10));
    assert_eq!(parse_up_to("11", 10), None);
    assert_eq!(parse_up_to("0", 0), Some(0));
    assert_eq!(parse_up_to("1", 0), None);
    assert_eq!(parse_up_to("18446744073709551615", u64::MAX), Some(u64::MAX));
    assert_eq!(parse_up_to("18446744073709551616", u64::MAX), None);
}

#[test]
fn no_choices_give_the_standard_settings() {
    let config = Config::from_choices(Choices::default()).unwrap();
    let standard = Config::default();
    assert_eq!(config.sip_address, standard.sip_address);
    assert_eq!(config.sip_port, 6001);
    assert_eq!(config.http_host, standard.http_host);
    assert_eq!(config.http_port, 80);
    assert_eq!(config.http_proto, standard.http_proto);
    assert_eq!(config.http_path, standard.http_path);
    assert_eq!(config.syslog_facility, standard.syslog_facility);
    assert_eq!(config.syslog_level, standard.syslog_level);
    assert_eq!(config.max_clients, 256);
    assert!(!config.ascii);
    assert!(!config.daemonize);
    assert!(!config.ignore_ssl_errors);
}

#[test]
fn every_choice_is_taken() {
    let choices = Choices {
        sip_address: text("0.0.0.0"),
        sip_port: text("6443"),
        http_host: text("backend.example.org"),
        http_port: text("8443"),
        http_proto: text("https"),
        http_path: text("/bridge"),
        syslog_facility: text("LOCAL3"),
        syslog_level: text("DEBUG"),
        max_clients: text("12"),
        ascii: true,
        daemonize: true,
        ignore_ssl_errors: true,
    };
    let config = Config::from_choices(choices).unwrap();
    assert_eq!(config.sip_address, "0.0.0.0");
    assert_eq!(config.sip_port, 6443);
    assert_eq!(config.http_host, "backend.example.org");
    assert_eq!(config.http_port, 8443);
    assert_eq!(config.http_proto, "https");
    assert_eq!(config.http_path, "/bridge");
    assert_eq!(config.syslog_facility, "LOCAL3");
    assert_eq!(config.syslog_level, "DEBUG");
    assert_eq!(config.max_clients, 12);
    assert!(config.ascii);
    assert!(config.daemonize);
    assert!(config.ignore_ssl_errors);
    assert_eq!(config.bind_address(), "0.0.0.0:6443");
    assert_eq!(config.backend_url(), "https://backend.example.org:8443/bridge");
}

#[test]
fn a_bad_sip_port_is_refused() {
    let mut choices = Choices::default();
    choices.sip_port = text("sixty");
    assert_eq!(Config::from_choices(choices).unwrap_err(), ConfigError::SipPort);
    let mut choices = Choices::default();
    choices.sip_port = text("65536");
    assert_eq!(Config::from_choices(choices).unwrap_err(), ConfigError::SipPort);
}

#[test]
fn a_bad_http_port_is_refused() {
    let mut choices = Choices::default();
    choices.http_port = text("-80");
    assert_eq!(Config::from_choices(choices).unwrap_err(), ConfigError::HttpPort);
}

#[test]
fn a_bad_maximum_is_refused() {
    let mut choices = Choices::default();
    choices.max_clients = text("");
    assert_eq!(Config::from_choices(choices).unwrap_err(), ConfigError::MaxClients);
    let mut choices = Choices::default();
    choices.max_clients = text("99999999999999999999999999");
    assert_eq!(Config::from_choices(choices).unwrap_err(), ConfigError::MaxClients);
}

#[test]
fn the_first_bad_number_is_the_one_reported() {
    let mut choices = Choices::default();
    choices.sip_port = text("a");
    choices.http_port = text("b");
    choices.max_clients = text("c");
    assert_eq!(Config::from_choices(choices).unwrap_err(), ConfigError::SipPort);
    let mut choices = Choices::default();
    choices.http_port = text("b");
    choices.max_clients = text("c");
    assert_eq!(Config::from_choices(choices).unwrap_err(), ConfigError::HttpPort);
}

#[test]
fn a_maximum_of_zero_is_taken_as_it_is() {
    let mut choices = Choices::default();
    choices.max_clients = text("0");
    assert_eq!(Config::from_choices(choices).unwrap().max_clients, 0);
}

#[test]
fn facility_for_knows_local0_to_local5() {
    assert_eq!(facility_for("local0"), Facility::Local0);
    assert_eq!(facility_for("local1"), Facility::Local1);
    assert_eq!(facility_for("local2"), Facility::Local2);
    assert_eq!(facility_for("local3"), Facility::Local3);
    assert_eq!(facility_for("local4"), Facility::Local4);
    assert_eq!(facility_for("local5"), Facility::Local5);
}

#[test]
fn facility_for_sends_local6_and_local7_to_local0() {
    assert_eq!(facility_for("local6"), Facility::Local0);
    assert_eq!(facility_for("local7"), Facility::Local0);
}

#[test]
fn facility_for_sends_every_other_name_to_user() {
    for name in ["", "user", "daemon", "local8", "local", "local00", "LOCAL1", " local1"] {
        assert_eq!(facility_for(name), Facility::User, "{:?}", name);
    }
}

#[test]
fn level_for_knows_the_five_levels() {
    assert_eq!(level_for("trace"), Level::Trace);
    assert_eq!(level_for("debug"), Level::Debug);
    assert_eq!(level_for("info"), Level::Info);
    assert_eq!(level_for("warn"), Level::Warn);
    assert_eq!(level_for("error"), Level::Error);
}

#[test]
fn level_for_takes_every_other_name_as_info() {
    for name in ["", "warning", "err", "fatal", "off", "WARN", "debug "] {
        assert_eq!(level_for(name), Level::Info, "{:?}", name);
    }
}

#[test]
fn log_target_of_the_standard_settings() {
    assert_eq!(
        Config::default().log_target(),
        LogTarget { facility: Facility::Local0, level: Level::Info }
    );
}

#[test]
fn log_target_ignores_case() {
    assert_eq!(
        named("LOCAL4", "DEBUG").log_target(),
        LogTarget { facility: Facility::Local4, level: Level::Debug }
    );
    assert_eq!(
        named("Local2", "Error").log_target(),
        LogTarget { facility: Facility::Local2, level: Level::Error }
    );
    assert_eq!(
        named("local5", "tRaCe").log_target(),
        LogTarget { facility: Facility::Local5, level: Level::Trace }
    );
}

#[test]
fn log_target_of_unknown_names() {
    assert_eq!(
        named("LOCAL7", "verbose").log_target(),
        LogTarget { facility: Facility::Local0, level: Level::Info }
    );
    assert_eq!(
        named("mail", "WARN").log_target(),
        LogTarget { facility: Facility::User, level: Level::Warn }
    );
}
