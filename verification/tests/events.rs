//! What a worker prints.
use model_permits::errors::PermitError;
use model_permits::events::{
    check_line, confirm, event_lines, line_bound, parse_events, traced_kind, Actor, Collector,
    EventEnvelope, EventKind,
};

type Value = serde_json::Value;

fn text(value: &Value) -> Option<String> {
    value.as_str().map(str::to_string)
}

/// An event from its JSON text, as the host reads it.
fn read(line: &[u8]) -> Option<EventEnvelope<Value>> {
    let content: Value = serde_json::from_slice(line).ok()?;
    let actor = match content["actor"]["kind"].as_str()? {
        "worker" => Actor::Worker { id: text(&content["actor"]["id"])? },
        _ => Actor::Other,
    };
    Some(EventEnvelope {
        event_id: content["event_id"].as_u64()?,
        session_id: text(&content["session_id"])?,
        task_id: text(&content["task_id"]),
        actor,
        conversation_id: text(&content["conversation_id"]),
        parent_task_id: text(&content["parent_task_id"]),
        kind: EventKind::Other,
        content,
    })
}

fn parse(bytes: &[u8], worker: &str) -> Result<Vec<EventEnvelope<Value>>, PermitError> {
    let lines = event_lines(bytes)?;
    let parsed = lines.iter().map(|line| read(line)).collect();
    parse_events(parsed, &worker.to_string())
}

#[test]
fn worker_events_cannot_spoof_envelope_identity() {
    let valid: Value = serde_json::from_str(
        "{\"event_id\": 1, \"sequence\": 1, \"occurred_at_ms\": 0,
          \"session_id\": \"worker\", \"task_id\": \"worker\",
          \"actor\": {\"kind\": \"worker\", \"id\": \"worker\"},
          \"kind\": \"reply\", \"text\": \"ok\", \"final_reply\": true}",
    )
    .unwrap();
    assert_eq!(parse(&serde_json::to_vec(&valid).unwrap(), "worker").unwrap().len(), 1);
    for (field, value) in [
        ("session_id", "\"other\""),
        ("task_id", "\"other\""),
        ("task_id", "null"),
        ("actor", "{\"kind\": \"system\"}"),
        ("actor", "{\"kind\": \"worker\", \"id\": \"other\"}"),
        ("conversation_id", "\"other\""),
        ("parent_task_id", "\"other\""),
    ] {
        let mut forged = valid.clone();
        forged[field] = serde_json::from_str(value).unwrap();
        assert!(parse(&serde_json::to_vec(&forged).unwrap(), "worker").is_err(), "{field}");
    }
    assert!(parse(b"{malformed", "worker").is_err());
    assert!(parse(&[0xff], "worker").is_err());
}

#[test]
fn only_lines_that_begin_with_a_brace_are_events() {
    let lines = |bytes: &[u8]| {
        event_lines(bytes)
            .unwrap()
            .into_iter()
            .map(|line| String::from_utf8(line).unwrap())
            .collect::<Vec<_>>()
    };
    assert_eq!(lines(b""), Vec::<String>::new());
    assert_eq!(lines(b"noise\n{a}\r\n\n {b}\n{c}"), ["{a}", "{c}"]);
    assert_eq!(lines(b"{a\r}\r"), ["{a\r}\r"]);
    assert_eq!(lines("\u{e9}\n{\u{e9}}\n".as_bytes()), ["{\u{e9}}"]);
    assert_eq!(lines(b"\r\n{\n"), ["{"]);
    // The same lines as the standard library finds.
    for text in ["", "\n", "{\n\n{", "{a\r\n{b\r{c\n", "x\r\n{y\r\r\n{z", "{\r\n"] {
        let expected: Vec<&str> = text.lines().filter(|line| line.starts_with('{')).collect();
        assert_eq!(lines(text.as_bytes()), expected, "{text:?}");
    }
}

fn event(event_id: u64, kind: EventKind) -> EventEnvelope<()> {
    EventEnvelope {
        event_id,
        session_id: "worker".into(),
        task_id: Some("worker".into()),
        actor: Actor::Worker { id: "worker".into() },
        conversation_id: None,
        parent_task_id: None,
        kind,
        content: (),
    }
}

fn raw(event_id: u64) -> EventEnvelope<()> {
    event(event_id, EventKind::ToolFinished { output: "out".into() })
}

#[test]
fn repeated_lines_count_once_and_conflicts_end_the_launch() {
    let mut collector: Collector<()> = Collector::new(100);
    assert_eq!(collector.observe(1, b"{one}"), Ok(true));
    assert_eq!(collector.observe(1, b"{one}"), Ok(false));
    assert_eq!(collector.observe(2, b"{one}"), Ok(true));
    assert_eq!(collector.observe(1, b"{two}"), Err(PermitError::Protocol));
}

#[test]
fn events_are_kept_once_and_in_the_order_in_which_they_came() {
    let mut collector: Collector<()> = Collector::new(20);
    let other = || EventKind::Other;
    let finished = || EventKind::ToolFinished { output: "out".into() };
    for (id, kind, line) in [
        (7, other(), "{seven}"),
        (2, finished(), "{two}"),
        (7, other(), "{seven}"),
        (9, finished(), "{nine, too long}"),
        (4, other(), "{four}"),
        (2, finished(), "{two}"),
        (9, finished(), "{nine, too long}"),
    ] {
        if collector.observe(id, line.as_bytes()).unwrap() {
            collector.keep(event(id, kind), line.len()).unwrap();
        }
    }
    let ids = |events: &[EventEnvelope<()>]| {
        events.iter().map(|event| event.event_id).collect::<Vec<_>>()
    };
    assert_eq!(ids(collector.events()), [7, 2, 4]);
    // What was let go is remembered all the same.
    assert_eq!(collector.observe(9, b"{other}"), Err(PermitError::Protocol));
    let (kept, trimmed) = collector.conclude(21);
    assert!(trimmed);
    assert_eq!(ids(&kept), [7, 4]);
}

#[test]
fn too_many_events_end_the_launch() {
    let mut collector: Collector<()> = Collector::new(1_000_000);
    for id in 0..20_000 {
        assert_eq!(collector.observe(id, b"{}"), Ok(true));
        assert!(collector.keep(event(id, EventKind::Other), 2).is_ok());
    }
    assert_eq!(collector.observe(0, b"{}"), Ok(false));
    assert_eq!(collector.observe(20_000, b"{}"), Err(PermitError::Protocol));
    assert_eq!(
        collector.keep(event(20_000, EventKind::Other), 2),
        Err(PermitError::Protocol)
    );
}

#[test]
fn raw_text_is_let_go_and_semantic_events_are_not() {
    let mut collector: Collector<()> = Collector::new(10);
    collector.keep(raw(1), 6).unwrap();
    collector.keep(raw(2), 5).unwrap();
    collector.keep(event(3, EventKind::WorkCandidate { failure: None }), 10).unwrap();
    assert_eq!(
        collector.keep(event(4, EventKind::Other), 1),
        Err(PermitError::Protocol)
    );
    assert_eq!(collector.events().len(), 2);
    let (kept, trimmed) = collector.conclude(10);
    assert!(!trimmed);
    assert_eq!(kept.iter().map(|e| e.event_id).collect::<Vec<_>>(), [1, 3]);
}

#[test]
fn what_does_not_fit_a_frame_loses_its_raw_text() {
    let mut collector: Collector<()> = Collector::new(10);
    collector.keep(raw(1), 1).unwrap();
    collector.keep(event(2, EventKind::Other), 1).unwrap();
    collector.keep(event(3, EventKind::ToolStarted { arguments: "a".into() }), 1).unwrap();
    collector.keep(event(4, EventKind::WorkCandidate { failure: None }), 1).unwrap();
    let (kept, trimmed) = collector.conclude(11);
    assert!(trimmed);
    assert_eq!(kept.iter().map(|e| e.event_id).collect::<Vec<_>>(), [2, 4]);
    assert_eq!(confirm(10, 10), Ok(()));
    assert_eq!(confirm(11, 10), Err(PermitError::Protocol));
}

#[test]
fn only_event_lines_may_be_long() {
    assert_eq!(line_bound(Some(b'{'), 100), 64 * 1024 * 1024);
    assert_eq!(line_bound(Some(b'x'), 100), 100);
    assert_eq!(line_bound(None, 100), 100);
    assert_eq!(check_line(Some(b'x'), 100, 100), Ok(()));
    assert_eq!(check_line(Some(b'x'), 101, 100), Err(PermitError::Protocol));
    assert_eq!(check_line(Some(b'{'), 101, 100), Ok(()));
}

#[test]
fn traces_are_redacted() {
    let redact = |text: &String| text.replace("secret", "***");
    let started = EventKind::ToolStarted { arguments: "a secret".into() };
    let finished = EventKind::ToolFinished { output: "secret b".into() };
    let candidate = EventKind::WorkCandidate { failure: Some("secret".into()) };
    assert!(matches!(
        traced_kind(&started, &redact),
        EventKind::ToolStarted { arguments } if arguments == "a ***"
    ));
    assert!(matches!(
        traced_kind(&finished, &redact),
        EventKind::ToolFinished { output } if output == "*** b"
    ));
    assert!(matches!(
        traced_kind(&candidate, &redact),
        EventKind::WorkCandidate { failure: Some(message) } if message == "secret"
    ));
}
