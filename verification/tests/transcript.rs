use vibe_dictate::error::StreamError;
use vibe_dictate::protocol::{Failure, Incoming, Outcome, Reply};
use vibe_dictate::transcript::{
    closing_event, failure_error, transfer_end, ServerMessage, StreamEvent, StreamResult,
    Transcript,
};

fn parse(raw: &str) -> ServerMessage {
    let value: serde_json::Value = serde_json::from_str(raw).unwrap();
    let text_of = |key: &str| value.get(key).and_then(|v| v.as_str()).map(|s| s.to_string());
    ServerMessage {
        text: text_of("text"),
        clean_text: text_of("clean_text"),
        done: value.get("done").and_then(|v| v.as_bool()),
        error: text_of("error"),
    }
}

#[test]
fn parser_state_isolated_between_sessions() {
    let mut first = Transcript::new();
    let mut second = Transcript::new();
    first.hear(parse(r#"{"text":"first"}"#), 1).unwrap();
    second.hear(parse(r#"{"text":"second"}"#), 2).unwrap();
    assert_eq!(first.text, "first");
    assert_eq!(second.text, "second");
}

#[test]
fn the_user_sees_the_clean_text() {
    let mut t = Transcript::new();
    let heard = t.hear(parse(r#"{"text":"raw live", "clean_text":"live"}"#), 7).unwrap();
    assert!(!heard.done);
    assert!(matches!(heard.event, Some(StreamEvent::Partial(s)) if s == "live"));
    let heard = t.hear(parse(r#"{"text":"raw again"}"#), 8).unwrap();
    assert!(matches!(heard.event, Some(StreamEvent::Partial(s)) if s == "raw again"));
    assert_eq!(t.clean_text.as_deref(), Some("live"));
    let heard =
        t.hear(parse(r#"{"text":"raw final", "clean_text":"final", "done":true}"#), 9).unwrap();
    assert!(heard.done);
    assert!(matches!(heard.event, Some(StreamEvent::Partial(s)) if s == "final"));
    assert_eq!(t.text, "raw final");
    assert_eq!(t.clean_text.as_deref(), Some("final"));
    assert_eq!(t.first_update_ms, Some(7));
}

#[test]
fn a_message_without_text_shows_nothing() {
    let mut t = Transcript::new();
    let heard = t.hear(parse(r#"{"clean_text":"only clean","done":false}"#), 3).unwrap();
    assert!(heard.event.is_none() && !heard.done);
    assert_eq!((t.text.as_str(), t.first_update_ms), ("", None));
    assert_eq!(t.clean_text.as_deref(), Some("only clean"));
    let heard = t.hear(parse(r#"{"done":true}"#), 4).unwrap();
    assert!(heard.event.is_none() && heard.done);
    t.hear(parse(r#"{"text":""}"#), 5).unwrap();
    assert_eq!(t.first_update_ms, Some(5));
}

#[test]
fn an_error_changes_nothing() {
    let mut t = Transcript::new();
    t.hear(parse(r#"{"text":"kept"}"#), 1).unwrap();
    let error = t
        .hear(parse(r#"{"error":"out of memory","text":"lost","clean_text":"x","done":true}"#), 2)
        .unwrap_err();
    assert!(matches!(&error, StreamError::Backend(s) if s == "out of memory"));
    assert_eq!(error.message(), "streaming backend: out of memory");
    assert_eq!((t.text.as_str(), t.clean_text, t.first_update_ms), ("kept", None, Some(1)));
}

#[test]
fn a_good_end_brings_the_result() {
    let mut t = Transcript::new();
    t.hear(parse(r#"{"text":"hello", "done":true, "total_chunks":1}"#), 12).unwrap();
    match closing_event(Outcome::Done, t, 40, Some(9), String::new()) {
        Some(StreamEvent::Done(result)) => {
            assert_eq!(result.text, "hello");
            assert_eq!(result.clean_text, None);
            assert_eq!(result.first_update_ms, Some(12));
            assert_eq!(result.final_ms, 40);
            assert_eq!(result.release_to_final_ms, Some(9));
        }
        other => panic!("{other:?}"),
    }
}

#[test]
fn other_ends_bring_an_error_or_nothing() {
    let end = |outcome: Outcome| {
        closing_event(outcome, Transcript::new(), 0, None, "no route".to_string())
    };
    assert!(end(Outcome::Cancelled).is_none());
    for (failure, message) in [
        (Failure::Transport, "no route"),
        (Failure::Device, "no route"),
        (Failure::QueueOverflow, "audio capture queue overflowed; transcription discarded"),
        (Failure::DoneTimeout, "timed out waiting for streaming done"),
        (Failure::ClosedBeforeDone, "stream closed before done"),
    ] {
        assert!(matches!(
            end(Outcome::Failed(failure)),
            Some(StreamEvent::Error(s)) if s == message
        ));
        assert_eq!(failure_error(failure, "no route".to_string()).message(), message);
    }
}

#[test]
fn the_default_result_is_empty() {
    let result = StreamResult::default();
    assert_eq!(result.text, "");
    assert_eq!(result.clean_text, None);
    assert_eq!(result.first_update_ms, None);
    assert_eq!(result.final_ms, 0);
    assert_eq!(result.release_to_final_ms, None);
}

#[test]
fn a_message_becomes_a_reply() {
    let mut t = Transcript::new();
    let received = t.receive(parse(r#"{"text":"a"}"#), 1);
    assert_eq!(received.reply, Reply::Read(Incoming::Message { done: false }));
    assert!(matches!(received.event, Some(StreamEvent::Partial(s)) if s == "a"));
    assert!(received.error.is_none());
    let received = t.receive(parse(r#"{"done":true}"#), 2);
    assert_eq!(received.reply, Reply::Read(Incoming::Message { done: true }));
    assert!(received.event.is_none());
    let received = t.receive(parse(r#"{"error":"gone"}"#), 3);
    assert_eq!(received.reply, Reply::Failed);
    assert!(received.event.is_none());
    assert_eq!(received.error.unwrap().message(), "streaming backend: gone");
    assert_eq!(t.text, "a");
}

#[test]
fn a_transfer_offers_its_sink_what_it_returns() {
    let mut t = Transcript::new();
    t.hear(parse(r#"{"text":"hello", "clean_text":"Hello.", "done":true}"#), 12).unwrap();
    let end = transfer_end(Outcome::Done, t, 40, Some(9), String::new());
    let result = end.result.unwrap();
    assert_eq!(result.text, "hello");
    assert_eq!(result.clean_text, Some("Hello.".to_string()));
    assert_eq!(result.first_update_ms, Some(12));
    assert_eq!(result.final_ms, 40);
    assert_eq!(result.release_to_final_ms, Some(9));
    match end.event {
        Some(StreamEvent::Done(offered)) => {
            assert_eq!(offered.text, result.text);
            assert_eq!(offered.clean_text, result.clean_text);
            assert_eq!(offered.first_update_ms, result.first_update_ms);
            assert_eq!(offered.final_ms, result.final_ms);
            assert_eq!(offered.release_to_final_ms, result.release_to_final_ms);
        }
        other => panic!("{other:?}"),
    }
}

#[test]
fn a_transfer_without_the_final_message_is_an_error() {
    for (outcome, message) in [
        (Outcome::Failed(Failure::Transport), "no route"),
        (Outcome::Failed(Failure::DoneTimeout), "timed out waiting for streaming done"),
        (Outcome::Failed(Failure::ClosedBeforeDone), "stream closed before done"),
        (Outcome::Cancelled, "stream closed before done"),
    ] {
        let mut t = Transcript::new();
        t.hear(parse(r#"{"text":"hel"}"#), 1).unwrap();
        let end = transfer_end(outcome, t, 40, None, "no route".to_string());
        assert_eq!(end.result.unwrap_err().message(), message);
        assert!(end.event.is_none());
    }
}

#[test]
fn arrival_times_do_not_change_the_text() {
    let texts = |times: [u128; 2]| {
        let mut t = Transcript::new();
        t.hear(parse(r#"{"text":"a", "clean_text":"A"}"#), times[0]).unwrap();
        t.hear(parse(r#"{"text":"ab", "done":true}"#), times[1]).unwrap();
        let result = transfer_end(Outcome::Done, t, 9, None, String::new()).result.unwrap();
        (result.text, result.clean_text)
    };
    assert_eq!(texts([1, 2]), texts([300, 4000]));
    assert_eq!(texts([1, 2]), ("ab".to_string(), Some("A".to_string())));
}
