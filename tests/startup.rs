use lamsubs::config::{
    parse_port, resolve_port, server_settings, startup, LogLevel, StartupError, DEFAULT_PORT,
};

fn some(s: &str) -> Option<String> {
    Some(String::from(s))
}

#[test]
fn port_numbers_parse() {
    assert_eq!(parse_port("8080"), Some(8080));
    assert_eq!(parse_port("0"), Some(0));
    assert_eq!(parse_port("65535"), Some(65535));
    assert_eq!(parse_port("+80"), Some(80));
    assert_eq!(parse_port("007"), Some(7));
}

#[test]
fn non_ports_are_rejected() {
    assert_eq!(parse_port(""), None);
    assert_eq!(parse_port("+"), None);
    assert_eq!(parse_port("-1"), None);
    assert_eq!(parse_port("80a"), None);
    assert_eq!(parse_port(" 80"), None);
    assert_eq!(parse_port("65536"), None);
    assert_eq!(parse_port("99999999999999999999"), None);
    assert_eq!(parse_port("8é"), None);
}

#[test]
fn parse_port_agrees_with_std() {
    for s in ["1", "3000", "+0", "65535", "65536", "", "+", "-0", "12x", "٣"] {
        assert_eq!(parse_port(s), s.parse::<u16>().ok(), "input {:?}", s);
    }
}

#[test]
fn default_port_when_none_configured() {
    assert_eq!(resolve_port(None), Ok(3000));
    assert_eq!(DEFAULT_PORT, 3000);
    assert_eq!(resolve_port(Some("4000")), Ok(4000));
    assert_eq!(resolve_port(Some("port")), Err(StartupError::InvalidPort));
}

#[test]
fn production_listens_everywhere() {
    let s = server_settings(true, 8000);
    assert!(s.production);
    assert_eq!(s.address, "0.0.0.0");
    assert_eq!(s.port, 8000);
    assert_eq!(s.log_level, LogLevel::Normal);
}

#[test]
fn development_listens_on_loopback() {
    let s = server_settings(false, 3000);
    assert!(!s.production);
    assert_eq!(s.address, "127.0.0.1");
    assert_eq!(s.log_level, LogLevel::Debug);
}

#[test]
fn missing_api_key_stops_startup() {
    let r = startup(None, some("list"), None, false);
    assert_eq!(r.err(), Some(StartupError::MissingApiKey));
    let r = startup(None, None, some("bad"), true);
    assert_eq!(r.err(), Some(StartupError::MissingApiKey));
}

#[test]
fn missing_list_id_stops_startup() {
    let r = startup(some("key"), None, None, false);
    assert_eq!(r.err(), Some(StartupError::MissingListId));
}

#[test]
fn invalid_port_stops_startup() {
    let r = startup(some("key"), some("list"), some("not-a-port"), false);
    assert_eq!(r.err(), Some(StartupError::InvalidPort));
}

#[test]
fn complete_configuration_starts() {
    let s = match startup(some("key"), some("list"), some("8081"), true) {
        Ok(s) => s,
        Err(e) => panic!("unexpected {:?}", e),
    };
    assert_eq!(s.config.api_key, "key");
    assert_eq!(s.config.list_id, "list");
    assert_eq!(s.server.port, 8081);
    assert_eq!(s.server.address, "0.0.0.0");
    let s = match startup(some("key"), some("list"), None, false) {
        Ok(s) => s,
        Err(e) => panic!("unexpected {:?}", e),
    };
    assert_eq!(s.server.port, 3000);
    assert_eq!(s.server.address, "127.0.0.1");
}
