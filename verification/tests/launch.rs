use nostrd::launch::{check_executable, config_text, endpoint, push_decimal, spawn_args};
use nostrd::Error;

#[test]
fn config_text_writes_port_as_string() {
    assert_eq!(
        config_text("127.0.0.1", 8080),
        "[network]\naddress = \"127.0.0.1\"\nport = \"8080\"\n"
    );
}

#[test]
fn config_text_with_other_address() {
    assert_eq!(
        config_text("0.0.0.0", 7),
        "[network]\naddress = \"0.0.0.0\"\nport = \"7\"\n"
    );
}

#[test]
fn endpoint_is_ws_address_port() {
    assert_eq!(endpoint("127.0.0.1", 43210), "ws://127.0.0.1:43210");
    assert_eq!(endpoint("localhost", 0), "ws://localhost:0");
}

#[test]
fn push_decimal_renders_digits() {
    let cases: Vec<(u16, &str)> = vec![
        (0, "0"),
        (9, "9"),
        (10, "10"),
        (100, "100"),
        (1234, "1234"),
        (50607, "50607"),
        (65535, "65535"),
    ];
    for (n, text) in cases {
        let mut s = String::new();
        push_decimal(&mut s, n);
        assert_eq!(s, text);
    }
}

#[test]
fn push_decimal_appends_behind_what_is_there() {
    let mut s = String::from("port=");
    push_decimal(&mut s, 8080);
    assert_eq!(s, "port=8080");
}

#[test]
fn spawn_args_appends_config_and_db() {
    let args = vec!["--verbose", "-x"];
    let got = spawn_args(&args, "/tmp/nostrd_1/config.toml", "/tmp/nostrd_1");
    assert_eq!(
        got,
        vec![
            "--verbose".to_string(),
            "-x".to_string(),
            "--config".to_string(),
            "/tmp/nostrd_1/config.toml".to_string(),
            "--db".to_string(),
            "/tmp/nostrd_1".to_string(),
        ]
    );
}

#[test]
fn spawn_args_without_caller_arguments() {
    let args: Vec<&str> = Vec::new();
    let got = spawn_args(&args, "c", "d");
    assert_eq!(
        got,
        vec!["--config".to_string(), "c".to_string(), "--db".to_string(), "d".to_string()]
    );
}

#[test]
fn executable_that_is_a_file_is_accepted() {
    assert!(check_executable("/usr/bin/relay", true, true).is_ok());
}

#[test]
fn missing_executable_is_a_configuration_fault() {
    match check_executable("/no/such/relay", false, false) {
        Err(Error::ConfigurationInvalid(path)) => assert_eq!(path, "/no/such/relay"),
        other => panic!("unexpected: {:?}", other),
    }
}

#[test]
fn directory_as_executable_is_a_configuration_fault() {
    match check_executable("/usr/bin", true, false) {
        Err(Error::ConfigurationInvalid(path)) => assert_eq!(path, "/usr/bin"),
        other => panic!("unexpected: {:?}", other),
    }
}

#[test]
fn child_logs_at_debug_level() {
    let (name, value) = nostrd::launch::spawn_env();
    assert_eq!(name, "RUST_LOG");
    assert_eq!(value, "debug");
}
