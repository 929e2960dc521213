use mqtt_logger::options::{configure_mqtt, Args};
use std::time::Duration;

fn s(text: &str) -> String {
    String::from(text)
}

fn base() -> Args {
    Args {
        broker: s("broker.example"),
        port: 1883,
        topics: vec![s("a")],
        topics_file: None,
        id: s("mqtt-logger"),
        keep_alive: 5,
        inflight: None,
        auth: Vec::new(),
        max_packet_size: Vec::new(),
        channel_capacity: None,
        clean_session: false,
    }
}

#[test]
fn plain_settings_keep_the_defaults() {
    let options = configure_mqtt(&base());
    assert_eq!(options.client_id(), "mqtt-logger");
    assert_eq!(options.broker_address(), (s("broker.example"), 1883));
    assert_eq!(options.keep_alive(), Duration::from_secs(5));
    assert!(!options.clean_session());
    assert!(options.credentials().is_none());
    assert_eq!(options.inflight(), 100);
    assert_eq!(options.max_packet_size(), 10240);
    assert_eq!(options.request_channel_capacity(), 10);
}

#[test]
fn every_setting_reaches_the_options() {
    let args = Args {
        broker: s("10.0.0.1"),
        port: 8883,
        id: s("bridge-7"),
        keep_alive: 30,
        inflight: Some(7),
        auth: vec![s("user"), s("secret")],
        max_packet_size: vec![2048, 4096],
        channel_capacity: Some(64),
        clean_session: true,
        ..base()
    };
    let options = configure_mqtt(&args);
    assert_eq!(options.client_id(), "bridge-7");
    assert_eq!(options.broker_address(), (s("10.0.0.1"), 8883));
    assert_eq!(options.keep_alive(), Duration::from_secs(30));
    assert!(options.clean_session());
    let login = options.credentials().unwrap();
    assert_eq!(login.username, "user");
    assert_eq!(login.password, "secret");
    assert_eq!(options.inflight(), 7);
    assert_eq!(options.max_packet_size(), 2048);
    assert_eq!(options.request_channel_capacity(), 64);
}

#[test]
fn keep_alive_of_zero_is_taken() {
    let options = configure_mqtt(&Args { keep_alive: 0, ..base() });
    assert_eq!(options.keep_alive(), Duration::from_secs(0));
}

#[test]
fn empty_identifier_with_a_clean_session_is_taken() {
    let args = Args { id: s(""), clean_session: true, ..base() };
    assert!(args.configurable());
    let options = configure_mqtt(&args);
    assert_eq!(options.client_id(), "");
    assert!(options.clean_session());
}

#[test]
fn extra_credentials_are_ignored() {
    let args = Args { auth: vec![s("u"), s("p"), s("x")], ..base() };
    assert!(args.configurable());
    let login = configure_mqtt(&args).credentials().unwrap();
    assert_eq!(login.username, "u");
    assert_eq!(login.password, "p");
}

#[test]
fn settings_that_fit_are_configurable() {
    assert!(base().configurable());
    assert!(Args { inflight: Some(1), ..base() }.configurable());
    assert!(Args { max_packet_size: vec![1, 2], ..base() }.configurable());
}

#[test]
fn lone_credential_is_not_configurable() {
    assert!(!Args { auth: vec![s("user")], ..base() }.configurable());
}

#[test]
fn lone_packet_size_is_not_configurable() {
    assert!(!Args { max_packet_size: vec![1024], ..base() }.configurable());
}

#[test]
fn zero_inflight_is_not_configurable() {
    assert!(!Args { inflight: Some(0), ..base() }.configurable());
}

#[test]
fn kept_session_without_identifier_is_not_configurable() {
    assert!(!Args { id: s(""), clean_session: false, ..base() }.configurable());
}
