use nix::errno::Errno;
use nostrd::error::ESRCH;
use nostrd::Error;

#[test]
fn io_error_converts_to_io() {
    let e = std::io::Error::new(std::io::ErrorKind::NotFound, "missing");
    match Error::from(e) {
        Error::Io(inner) => assert_eq!(inner.kind(), std::io::ErrorKind::NotFound),
        other => panic!("unexpected: {:?}", other),
    }
}

#[test]
fn errno_converts_to_nix() {
    match Error::from(Errno::EPERM) {
        Error::Nix(inner) => assert_eq!(inner, Errno::EPERM),
        other => panic!("unexpected: {:?}", other),
    }
}

#[test]
fn no_such_process_has_number_three() {
    assert_eq!(ESRCH, 3);
    assert_eq!(Errno::ESRCH as i32, ESRCH);
}

#[test]
fn message_of_exhausted_setup_names_the_attempts() {
    assert_eq!(Error::SetupExhausted(5).message(), "Fail to start NostrD after 5 attempts");
    assert_eq!(Error::SetupExhausted(0).message(), "Fail to start NostrD after 0 attempts");
    assert_eq!(Error::SetupExhausted(255).message(), "Fail to start NostrD after 255 attempts");
}

#[test]
fn message_of_invalid_configuration_names_the_path() {
    assert_eq!(
        Error::ConfigurationInvalid("/no/such/relay".to_string()).message(),
        "path \"/no/such/relay\" does not exist or is not a file"
    );
}

#[test]
fn message_of_refused_signal_names_the_error() {
    assert_eq!(Error::Nix(Errno::EPERM).message(), "Nix(EPERM)");
    assert_eq!(Error::Nix(Errno::ESRCH).message(), "Nix(ESRCH)");
}

#[test]
fn message_of_io_failure_wraps_its_description() {
    let e = std::io::Error::new(std::io::ErrorKind::NotFound, "missing");
    let text = Error::Io(e).message();
    assert!(text.starts_with("Io("));
    assert!(text.ends_with(")"));
    assert!(text.contains("missing"));
}
