use vote_hub::config::Config;
use vote_hub::error::AppError;

fn s(v: &str) -> Option<String> {
    Some(v.to_string())
}

#[test]
fn load_defaults_when_nothing_set() {
    let c = Config::load(None, None, None, None, None, None, None).unwrap();
    assert_eq!(c.rust_port, 8080);
    assert_eq!(c.svelte_url, "http://localhost:5173");
    assert_eq!(c.state_path, "/saved_state.json");
    assert_eq!(c.max_connections_per_ip, 5);
    assert_eq!(c.hash_salt, "WeAreInTroubleGoodnessGracious");
    assert_eq!(c.timeout_min, 5);
    assert_eq!(c.msg_delay_ms, 100);
}

#[test]
fn load_takes_given_values() {
    let c = Config::load(
        s("9001"),
        s("https://example.test"),
        s("/tmp/state.json"),
        s("2"),
        s("pepper"),
        s("1"),
        s("50"),
    )
    .unwrap();
    assert_eq!(c.rust_port, 9001);
    assert_eq!(c.svelte_url, "https://example.test");
    assert_eq!(c.state_path, "/tmp/state.json");
    assert_eq!(c.max_connections_per_ip, 2);
    assert_eq!(c.hash_salt, "pepper");
    assert_eq!(c.timeout_min, 1);
    assert_eq!(c.msg_delay_ms, 50);
}

#[test]
fn load_accepts_plus_sign_and_leading_zeros() {
    let c = Config::load(s("+8081"), None, None, s("007"), None, None, None).unwrap();
    assert_eq!(c.rust_port, 8081);
    assert_eq!(c.max_connections_per_ip, 7);
}

#[test]
fn load_rejects_bad_port() {
    let e = Config::load(s("abc"), None, None, None, None, None, None).unwrap_err();
    assert!(matches!(e, AppError::Config(_)));
    assert_eq!(e.message(), "Invalid RUST_PORT value");
}

#[test]
fn load_rejects_port_out_of_range() {
    let e = Config::load(s("65536"), None, None, None, None, None, None).unwrap_err();
    assert_eq!(e.message(), "Invalid RUST_PORT value");
    let c = Config::load(s("65535"), None, None, None, None, None, None).unwrap();
    assert_eq!(c.rust_port, 65535);
}

#[test]
fn load_rejects_bad_connection_limit() {
    let e = Config::load(None, None, None, s("256"), None, None, None).unwrap_err();
    assert_eq!(e.message(), "Invalid RUST_MAX_CONNECTIONS_PER_IP value");
}

#[test]
fn load_rejects_bad_timeout() {
    let e = Config::load(None, None, None, None, None, s("-1"), None).unwrap_err();
    assert_eq!(e.message(), "Invalid RUST_TIMEOUT_MIN value");
}

#[test]
fn load_rejects_bad_delay() {
    let e = Config::load(None, None, None, None, None, None, s("1x")).unwrap_err();
    assert_eq!(e.message(), "Invalid RUST_MSG_DELAY_MS value");
}

#[test]
fn load_reports_first_failure() {
    let e = Config::load(s("nope"), None, None, s("256"), None, None, None).unwrap_err();
    assert_eq!(e.message(), "Invalid RUST_PORT value");
}

#[test]
fn error_messages_carry_their_text() {
    assert_eq!(AppError::Environment("no such variable".to_string()).message(), "no such variable");
    assert_eq!(AppError::Io("read failed".to_string()).message(), "read failed");
    assert_eq!(AppError::Json("bad value".to_string()).message(), "bad value");
    assert_eq!(AppError::Config("bad port".to_string()).message(), "bad port");
}
