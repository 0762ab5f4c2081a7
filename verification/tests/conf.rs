use nostrd::Conf;

#[test]
fn default_conf_has_five_attempts_and_nothing_chosen() {
    let conf = Conf::default();
    assert!(conf.args.is_empty());
    assert_eq!(conf.attempts, 5);
    assert_eq!(conf.ip, None);
    assert_eq!(conf.port, None);
    assert_eq!(conf.binary, None);
}

#[test]
fn address_defaults_to_loopback() {
    let conf = Conf::default();
    assert_eq!(conf.address(), "127.0.0.1");
}

#[test]
fn address_is_the_chosen_one() {
    let mut conf = Conf::default();
    conf.ip = Some("10.1.2.3".to_string());
    assert_eq!(conf.address(), "10.1.2.3");
}

#[test]
fn port_defaults_to_the_allocated_one() {
    let conf = Conf::default();
    assert_eq!(conf.port_or(40123), 40123);
}

#[test]
fn port_is_the_chosen_one() {
    let mut conf = Conf::default();
    conf.port = Some(7000);
    assert_eq!(conf.port_or(40123), 7000);
}

#[test]
fn executable_defaults_to_the_bundled_one() {
    let conf = Conf::default();
    assert_eq!(conf.executable("/opt/harness"), "/opt/harness/bin/nostr-rs-relay_0_9_0_linux");
}

#[test]
fn executable_is_the_chosen_one() {
    let mut conf = Conf::default();
    conf.binary = Some("/usr/local/bin/relay".to_string());
    assert_eq!(conf.executable("/opt/harness"), "/usr/local/bin/relay");
}

#[test]
fn conf_clone_is_equal() {
    let mut conf = Conf::default();
    conf.args = vec!["-a"];
    conf.attempts = 2;
    assert_eq!(conf.clone(), conf);
}
