use stream_session::directory::DiscoveredStream;
use stream_session::session::{SessionController, SessionError};
use stream_session::xml::parse_xml;

fn stream(name: &str, source_id: &str, hostname: &str, channels: u32) -> DiscoveredStream {
    DiscoveredStream {
        metadata: parse_xml(&format!("<s><name>{}</name></s>", name)),
        source_id: source_id.to_string(),
        hostname: hostname.to_string(),
        channel_count: channels,
        srate_text: "250".to_string(),
    }
}

#[test]
fn disconnect_with_no_session_is_a_successful_no_op() {
    let mut ctl = SessionController::new();
    assert!(!ctl.has_session());
    let act = ctl.disconnect();
    assert!(!act.join_thread);
    assert!(!ctl.has_session());
}

#[test]
fn successful_connect_registers_a_session() {
    let mut ctl = SessionController::new();
    let resolved = Ok(vec![stream("EEG", "id1", "host1", 4)]);
    let (teardown, outcome) = ctl.connect(resolved, &"EEG".to_string(), &"id1".to_string());
    assert!(!teardown.join_thread);
    let plan = outcome.expect("stream should match");
    assert_eq!(plan.stream_index, 0);
    assert_eq!(plan.hostname, "host1");
    assert_eq!(plan.source_id, "id1");
    assert_eq!(plan.channel_count, 4);
    assert_eq!(plan.channel_names, vec!["Ch0", "Ch1", "Ch2", "Ch3"]);
    assert!(ctl.has_session());
}

#[test]
fn connect_while_active_demands_teardown_first() {
    let mut ctl = SessionController::new();
    let first = Ok(vec![stream("EEG", "id1", "host1", 2)]);
    ctl.connect(first, &"EEG".to_string(), &"id1".to_string()).1.expect("first connect");
    let second = Ok(vec![stream("EEG", "id1", "host1", 2)]);
    let (teardown, outcome) = ctl.connect(second, &"EEG".to_string(), &"id1".to_string());
    assert!(teardown.join_thread, "the old session's thread must be joined first");
    assert!(outcome.is_ok());
}

#[test]
fn failed_connect_tears_down_and_leaves_no_session() {
    let mut ctl = SessionController::new();
    let first = Ok(vec![stream("EEG", "id1", "host1", 2)]);
    ctl.connect(first, &"EEG".to_string(), &"id1".to_string()).1.expect("first connect");
    let (teardown, outcome) = ctl.connect(Ok(Vec::new()), &"EEG".to_string(), &"id1".to_string());
    assert!(teardown.join_thread);
    assert!(outcome.is_err());
    assert!(!ctl.has_session());
    let act = ctl.disconnect();
    assert!(!act.join_thread);
}

#[test]
fn discovery_failure_is_reported_with_its_message() {
    let mut ctl = SessionController::new();
    let (_, outcome) = ctl.connect(Err("boom".to_string()), &"EEG".to_string(), &"id".to_string());
    match outcome {
        Err(e @ SessionError::Discovery(_)) => {
            assert_eq!(e.message(), "Resolve failed: boom");
        },
        other => panic!("expected a discovery error, got {:?}", other.is_ok()),
    }
}

#[test]
fn unmatched_stream_is_reported_with_name_and_source() {
    let mut ctl = SessionController::new();
    let resolved = Ok(vec![stream("Other", "id9", "host", 1)]);
    let (_, outcome) = ctl.connect(resolved, &"EEG".to_string(), &"id1".to_string());
    match outcome {
        Err(e @ SessionError::StreamNotFound { .. }) => {
            assert_eq!(e.message(), "Stream 'EEG' with source ID 'id1' not found");
        },
        _ => panic!("expected stream-not-found"),
    }
}

#[test]
fn at_most_one_thread_across_any_call_sequence() {
    // A mock world that performs the demanded actions and records the
    // number of concurrently alive sampling threads.
    let mut ctl = SessionController::new();
    let mut alive: i32 = 0;
    let mut peak: i32 = 0;
    let name = "EEG".to_string();
    let id = "id1".to_string();
    let good = || Ok(vec![stream("EEG", "id1", "host1", 2)]);

    // connect, connect, connect (failing), disconnect, disconnect, connect, disconnect
    for step in 0..7 {
        match step {
            0 | 1 | 5 => {
                let (teardown, outcome) = ctl.connect(good(), &name, &id);
                if teardown.join_thread {
                    alive -= 1;
                }
                assert!((0..=1).contains(&alive));
                if outcome.is_ok() {
                    alive += 1;
                }
                assert!((0..=1).contains(&alive));
            },
            2 => {
                let (teardown, outcome) = ctl.connect(Ok(Vec::new()), &name, &id);
                if teardown.join_thread {
                    alive -= 1;
                }
                assert!((0..=1).contains(&alive));
                assert!(outcome.is_err());
            },
            _ => {
                let teardown = ctl.disconnect();
                if teardown.join_thread {
                    alive -= 1;
                }
                assert!((0..=1).contains(&alive));
            },
        }
        peak = peak.max(alive);
    }
    assert_eq!(alive, 0);
    assert_eq!(peak, 1);
}
