use bench_display::commands::Command;
use bench_display::config::Config;
use bench_display::device::client_id;
use bench_display::events::{received_event, Event};
use bench_display::layout::{field_text, merge_lines};
use bench_display::policy::{
    command_failure_decision, command_is_critical, RetryDecision, MAX_COMMAND_ATTEMPTS,
};
use bench_display::topics::{bench_topic, description_topic, ip_topic, software_topic};

#[test]
fn topic_templates() {
    assert_eq!(bench_topic("a1b2c3"), "display/serial/a1b2c3/bench");
    assert_eq!(ip_topic("a1b2c3"), "display/serial/a1b2c3/ip");
    assert_eq!(description_topic("Bench10"), "benches/Bench10/description");
    assert_eq!(software_topic("Bench10"), "diagnosis/Bench10/software");
}

#[test]
fn client_id_is_display_dash_hex() {
    assert_eq!(client_id(&[0x12, 0xab, 0x00, 0xff]), "display-12ab00ff");
    assert_eq!(client_id(&[]), "display-");
}

#[test]
fn received_event_decodes_payload_text() {
    let e = received_event("benches/Bench10/description", b"long text");
    match e {
        Event::Received(topic, payload) => {
            assert_eq!(topic, "benches/Bench10/description");
            assert_eq!(payload, "long text");
        }
        _ => panic!("expected a received event"),
    }
}

#[test]
fn received_event_substitutes_invalid_bytes() {
    let e = received_event("t", &[0x68, 0x69, 0xff]);
    match e {
        Event::Received(_, payload) => assert_eq!(payload, "hi\u{FFFD}"),
        _ => panic!("expected a received event"),
    }
}

#[test]
fn broker_url_without_credentials() {
    let config = Config {
        wifi_ssid: String::from("net"),
        wifi_psk: String::from("secret"),
        mqtt_host: String::from("broker.local"),
        mqtt_user: String::new(),
        mqtt_pass: String::new(),
    };
    assert_eq!(config.broker_url(), "mqtt://broker.local");
}

#[test]
fn broker_url_with_credentials() {
    let config = Config {
        wifi_ssid: String::from("net"),
        wifi_psk: String::from("secret"),
        mqtt_host: String::from("broker.local"),
        mqtt_user: String::from("sign"),
        mqtt_pass: String::from("pw"),
    };
    assert_eq!(config.broker_url(), "mqtt://sign:pw@broker.local");
}

#[test]
fn merge_lines_joins_with_newlines() {
    let lines = vec![
        String::from("alpha"),
        String::from("beta"),
        String::from("gamma"),
    ];
    assert_eq!(merge_lines(&lines, 3), "alpha\nbeta\ngamma");
    assert_eq!(merge_lines(&lines, 2), "alpha\nbeta");
    assert_eq!(merge_lines(&lines, 1), "alpha");
    assert_eq!(merge_lines(&lines, 0), "");
    assert_eq!(merge_lines(&lines, 9), "alpha\nbeta\ngamma");
    assert_eq!(merge_lines(&Vec::<String>::new(), 2), "");
}

#[test]
fn field_text_wraps_and_cuts() {
    // A region of 50 pixels holds five columns of the ten-pixel font.
    assert_eq!(field_text("aaaa bbbb cccc", 50, 3), "aaaa\nbbbb\ncccc");
    assert_eq!(field_text("aaaa bbbb cccc", 50, 2), "aaaa\nbbbb");
    assert_eq!(field_text("aaaa bbbb cccc", 50, 1), "aaaa");
    // Text that fits on one line is kept as it is.
    assert_eq!(field_text("hello world", 246, 1), "hello world");
}

#[test]
fn subscriptions_are_critical_publishes_are_not() {
    assert!(command_is_critical(&Command::Subscribe(String::from("t"))));
    assert!(command_is_critical(&Command::Unsubscribe(String::from("t"))));
    assert!(!command_is_critical(&Command::Publish {
        topic: String::from("t"),
        payload: String::from("p"),
        retained: true,
    }));
    assert!(!command_is_critical(&Command::Render {
        bench: String::from("b"),
        software: String::from("s"),
        description: String::from("d"),
    }));
}

#[test]
fn failure_decision_retries_then_escalates() {
    assert!(matches!(
        command_failure_decision(0),
        RetryDecision::RetryAfterBackoff
    ));
    assert!(matches!(
        command_failure_decision(MAX_COMMAND_ATTEMPTS - 1),
        RetryDecision::RetryAfterBackoff
    ));
    assert!(matches!(
        command_failure_decision(MAX_COMMAND_ATTEMPTS),
        RetryDecision::SessionFatal
    ));
    assert!(matches!(
        command_failure_decision(MAX_COMMAND_ATTEMPTS + 5),
        RetryDecision::SessionFatal
    ));
}
