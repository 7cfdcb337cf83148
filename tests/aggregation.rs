use hangul_copilot::copilot::CopilotError;
use hangul_copilot::events::{collect_response, Received, ResponseFold, SessionEvent, EVENT_WAIT_SECS};

fn delta(s: &str) -> Received {
    Received::Event(SessionEvent::Delta(s.to_string()))
}

fn message(s: &str) -> Received {
    Received::Event(SessionEvent::Message(s.to_string()))
}

fn idle() -> Received {
    Received::Event(SessionEvent::Idle)
}

#[test]
fn deltas_are_concatenated() {
    let r = collect_response(&vec![delta("안"), delta("녕"), idle()]).unwrap();
    assert_eq!(r.content, "안녕");
    assert!(r.tool_used.is_none());
}

#[test]
fn full_message_is_fallback_when_empty() {
    let r = collect_response(&vec![message("hello"), idle()]).unwrap();
    assert_eq!(r.content, "hello");
}

#[test]
fn full_message_ignored_after_delta() {
    let r = collect_response(&vec![delta("a"), message("ab"), idle()]).unwrap();
    assert_eq!(r.content, "a");
}

#[test]
fn timeout_fails_the_fold() {
    let r = collect_response(&vec![delta("a"), Received::TimedOut, idle()]);
    assert!(matches!(r, Err(CopilotError::Timeout)));
    assert_eq!(EVENT_WAIT_SECS, 60);
}

#[test]
fn error_event_discards_partial_content() {
    let r = collect_response(&vec![
        delta("partial"),
        Received::Event(SessionEvent::Error("remote broke".to_string())),
        delta("more"),
        idle(),
    ]);
    match r {
        Err(CopilotError::SendFailed(m)) => assert_eq!(m, "remote broke"),
        other => panic!("unexpected {:?}", other),
    }
}

#[test]
fn closed_stream_returns_what_was_gathered() {
    let r = collect_response(&vec![delta("ab"), Received::Closed, delta("c")]).unwrap();
    assert_eq!(r.content, "ab");
    let r = collect_response(&vec![delta("x"), delta("y")]).unwrap();
    assert_eq!(r.content, "xy");
}

#[test]
fn other_events_are_ignored_and_idle_ends() {
    let r = collect_response(&vec![
        Received::Event(SessionEvent::Other),
        delta("k"),
        Received::Event(SessionEvent::Other),
        idle(),
        delta("late"),
    ])
    .unwrap();
    assert_eq!(r.content, "k");
}

#[test]
fn empty_stream_gives_empty_answer() {
    let r = collect_response(&vec![idle()]).unwrap();
    assert_eq!(r.content, "");
}

#[test]
fn stepwise_fold_matches_batch() {
    let mut f = ResponseFold::new();
    assert!(f.step(&delta("h")).is_none());
    assert!(f.step(&message("ignored")).is_none());
    assert!(f.step(&delta("i")).is_none());
    let r = f.step(&idle()).unwrap().unwrap();
    assert_eq!(r.content, "hi");
}
