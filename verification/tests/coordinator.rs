use bench_display::commands::Command;
use bench_display::coordinator::Coordinator;
use bench_display::events::Event;

fn received(topic: &str, payload: &str) -> Event {
    Event::Received(String::from(topic), String::from(payload))
}

fn subscribe_topic(cmd: &Command) -> &str {
    match cmd {
        Command::Subscribe(t) => t.as_str(),
        _ => panic!("expected a subscribe command"),
    }
}

fn unsubscribe_topic(cmd: &Command) -> &str {
    match cmd {
        Command::Unsubscribe(t) => t.as_str(),
        _ => panic!("expected an unsubscribe command"),
    }
}

#[test]
fn connected_subscribes_and_publishes_address_retained() {
    let mut c = Coordinator::new("a1b2c3", "10.0.0.9");
    let cmds = c.step(Event::Connected);
    assert_eq!(cmds.len(), 2);
    assert_eq!(subscribe_topic(&cmds[0]), "display/serial/a1b2c3/bench");
    match &cmds[1] {
        Command::Publish { topic, payload, retained } => {
            assert_eq!(topic.as_str(), "display/serial/a1b2c3/ip");
            assert_eq!(payload.as_str(), "10.0.0.9");
            assert!(*retained);
        }
        _ => panic!("expected a publish command"),
    }
    let publishes = cmds
        .iter()
        .filter(|cmd| matches!(cmd, Command::Publish { .. }))
        .count();
    assert_eq!(publishes, 1);
}

#[test]
fn first_bench_identity_subscribes_both_channels() {
    let mut c = Coordinator::new("a1b2c3", "10.0.0.9");
    c.step(Event::Connected);
    let cmds = c.step(received("display/serial/a1b2c3/bench", "Bench10"));
    assert_eq!(cmds.len(), 2);
    assert_eq!(subscribe_topic(&cmds[0]), "benches/Bench10/description");
    assert_eq!(subscribe_topic(&cmds[1]), "diagnosis/Bench10/software");
}

#[test]
fn repeated_bench_identity_is_a_no_op() {
    let mut c = Coordinator::new("a1b2c3", "10.0.0.9");
    c.step(Event::Connected);
    let first = c.step(received("display/serial/a1b2c3/bench", "Bench10"));
    let second = c.step(received("display/serial/a1b2c3/bench", "Bench10"));
    let cycle = |cmds: &Vec<Command>| {
        cmds.iter()
            .filter(|cmd| {
                matches!(cmd, Command::Subscribe(_)) || matches!(cmd, Command::Unsubscribe(_))
            })
            .count()
    };
    assert_eq!(cycle(&first), 2);
    assert_eq!(cycle(&second), 0);
    assert!(second.is_empty());
}

#[test]
fn bench_change_unsubscribes_old_before_subscribing_new() {
    let mut c = Coordinator::new("a1b2c3", "10.0.0.9");
    c.step(Event::Connected);
    c.step(received("display/serial/a1b2c3/bench", "A"));
    let cmds = c.step(received("display/serial/a1b2c3/bench", "B"));
    assert_eq!(cmds.len(), 4);
    assert_eq!(unsubscribe_topic(&cmds[0]), "benches/A/description");
    assert_eq!(unsubscribe_topic(&cmds[1]), "diagnosis/A/software");
    assert_eq!(subscribe_topic(&cmds[2]), "benches/B/description");
    assert_eq!(subscribe_topic(&cmds[3]), "diagnosis/B/software");
}

#[test]
fn bench_change_clears_dependent_fields() {
    let mut c = Coordinator::new("a1b2c3", "10.0.0.9");
    c.step(Event::Connected);
    c.step(received("display/serial/a1b2c3/bench", "A"));
    c.step(received("benches/A/description", "old desk"));
    c.step(received("diagnosis/A/software", "V1"));
    c.step(received("display/serial/a1b2c3/bench", "B"));
    // After the change only one of the two new fields is set: no redraw yet.
    let cmds = c.step(received("benches/B/description", "new desk"));
    assert!(cmds.is_empty());
    // The second field completes the triple: the redraw shows B's values.
    let cmds = c.step(received("diagnosis/B/software", "V2"));
    assert_eq!(cmds.len(), 1);
    match &cmds[0] {
        Command::Render { bench, software, description } => {
            assert_eq!(bench.as_str(), "B");
            assert_eq!(software.as_str(), "V2");
            assert_eq!(description.as_str(), "new desk");
        }
        _ => panic!("expected a render command"),
    }
}

#[test]
fn full_session_renders_final_triple() {
    let mut c = Coordinator::new("a1b2c3", "10.0.0.9");
    c.step(Event::Connected);
    c.step(received("display/serial/a1b2c3/bench", "Bench10"));
    let after_description = c.step(received("benches/Bench10/description", "long text"));
    assert!(after_description.is_empty());
    let after_software = c.step(received("diagnosis/Bench10/software", "Q352"));
    assert_eq!(after_software.len(), 1);
    match &after_software[0] {
        Command::Render { bench, software, description } => {
            assert_eq!(bench.as_str(), "Bench10");
            assert_eq!(software.as_str(), "Q352");
            assert_eq!(description.as_str(), "long text");
        }
        _ => panic!("expected a render command"),
    }
}

#[test]
fn repeating_bench_after_full_session_orders_nothing() {
    let mut c = Coordinator::new("a1b2c3", "10.0.0.9");
    c.step(Event::Connected);
    c.step(received("display/serial/a1b2c3/bench", "Bench10"));
    c.step(received("benches/Bench10/description", "long text"));
    c.step(received("diagnosis/Bench10/software", "Q352"));
    let cmds = c.step(received("display/serial/a1b2c3/bench", "Bench10"));
    assert!(cmds.is_empty());
}

#[test]
fn unmatched_channel_is_discarded_without_state_change() {
    let mut c = Coordinator::new("a1b2c3", "10.0.0.9");
    c.step(Event::Connected);
    c.step(received("display/serial/a1b2c3/bench", "Bench10"));
    c.step(received("benches/Bench10/description", "long text"));
    // A stale message from a previously unsubscribed bench's channel.
    let stale = c.step(received("benches/Bench9/description", "stale"));
    assert!(stale.is_empty());
    // The discarded message left no trace: the stored description still
    // deduplicates, and the triple completes with Bench10's values.
    let repeat = c.step(received("benches/Bench10/description", "long text"));
    assert!(repeat.is_empty());
    let cmds = c.step(received("diagnosis/Bench10/software", "Q352"));
    assert_eq!(cmds.len(), 1);
    match &cmds[0] {
        Command::Render { bench, software, description } => {
            assert_eq!(bench.as_str(), "Bench10");
            assert_eq!(software.as_str(), "Q352");
            assert_eq!(description.as_str(), "long text");
        }
        _ => panic!("expected a render command"),
    }
}

#[test]
fn redraw_fires_only_on_change_of_a_complete_triple() {
    let mut c = Coordinator::new("a1b2c3", "10.0.0.9");
    c.step(Event::Connected);
    c.step(received("display/serial/a1b2c3/bench", "Bench10"));
    // Incomplete triple: a changed field alone does not redraw.
    assert!(c.step(received("benches/Bench10/description", "desk one")).is_empty());
    // Completing change: redraw.
    let cmds = c.step(received("diagnosis/Bench10/software", "Q1"));
    assert_eq!(cmds.len(), 1);
    assert!(matches!(cmds[0], Command::Render { .. }));
    // Repetition of the same value: no change, no redraw.
    assert!(c.step(received("diagnosis/Bench10/software", "Q1")).is_empty());
    // A differing value on a complete triple: redraw again.
    let cmds = c.step(received("benches/Bench10/description", "desk two"));
    assert_eq!(cmds.len(), 1);
    match &cmds[0] {
        Command::Render { bench, software, description } => {
            assert_eq!(bench.as_str(), "Bench10");
            assert_eq!(software.as_str(), "Q1");
            assert_eq!(description.as_str(), "desk two");
        }
        _ => panic!("expected a render command"),
    }
}

#[test]
fn first_bench_identity_has_nothing_to_unsubscribe() {
    let mut c = Coordinator::new("a1b2c3", "10.0.0.9");
    c.step(Event::Connected);
    let cmds = c.step(received("display/serial/a1b2c3/bench", "A"));
    assert!(cmds
        .iter()
        .all(|cmd| !matches!(cmd, Command::Unsubscribe(_))));
    assert_eq!(cmds.len(), 2);
}

#[test]
fn empty_bench_identity_still_derives_templates() {
    let mut c = Coordinator::new("a1b2c3", "10.0.0.9");
    c.step(Event::Connected);
    let cmds = c.step(received("display/serial/a1b2c3/bench", ""));
    assert_eq!(cmds.len(), 2);
    assert_eq!(subscribe_topic(&cmds[0]), "benches//description");
    assert_eq!(subscribe_topic(&cmds[1]), "diagnosis//software");
}

#[test]
fn coordinator_for_device_uses_hexadecimal_serial() {
    let mut c = Coordinator::for_device(&[0xa1, 0xb2, 0xc3], "10.0.0.9");
    let cmds = c.step(Event::Connected);
    assert_eq!(cmds.len(), 2);
    match &cmds[0] {
        Command::Subscribe(t) => assert_eq!(t.as_str(), "display/serial/a1b2c3/bench"),
        _ => panic!("expected a subscribe command"),
    }
}
