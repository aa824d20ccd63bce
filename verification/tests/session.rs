use claude_cli::output::Stream;
use claude_cli::session::{
    begin_session, read_clock, session_record, Message, Resumption, SessionInfo, Timestamp,
};
use std::sync::Arc;

#[test]
fn sessions_start_under_fresh_random_identifiers() {
    let one = SessionInfo::start("m".to_string(), "/work".to_string());
    let other = SessionInfo::start("m".to_string(), "/work".to_string());
    assert_ne!(one.id, other.id);
    assert_eq!(one.model, "m");
    assert_eq!(one.working_dir, "/work");
    match uuid::Uuid::parse_str(&one.id) {
        Ok(id) => {
            assert_eq!(id.get_version_num(), 4);
            assert_eq!(id.to_string(), one.id);
        }
        Err(_) => panic!("not a UUID"),
    }
}

#[test]
fn the_clock_is_read() {
    let now = read_clock();
    assert!(now.seconds > 1_600_000_000);
    assert!(now.nanoseconds < 1_000_000_000);
}

#[test]
fn records_hold_the_session() {
    let session = SessionInfo {
        id: "id-1".to_string(),
        model: "m".to_string(),
        working_dir: "/work".to_string(),
    };
    let messages: Vec<Message<u8>> =
        vec![Message::User("hi".to_string()), Message::Recorded(Arc::new(7))];
    let early = Timestamp { seconds: 1, nanoseconds: 2 };
    let late = Timestamp { seconds: 3, nanoseconds: 4 };
    let record = session_record(&session, &messages, early, late);
    assert_eq!(record.id, "id-1");
    assert_eq!(record.created_at, early);
    assert_eq!(record.updated_at, late);
    assert_eq!(record.model, "m");
    assert_eq!(record.title, None);
    assert_eq!(record.working_dir, Some("/work".to_string()));
    assert_eq!(record.messages.len(), 2);
    assert!(matches!(&record.messages[0], Message::User(text) if text == "hi"));
    assert!(matches!(&record.messages[1], Message::Recorded(m) if **m == 7));
}

#[test]
fn resumed_sessions_begin_with_their_messages() {
    let loaded: Vec<Message<u8>> = vec![Message::Assistant("hello".to_string())];
    let (messages, report) =
        begin_session(Some(Resumption { id: "id-1".to_string(), loaded: Ok(loaded) }));
    assert_eq!(messages.len(), 1);
    assert!(matches!(&messages[0], Message::Assistant(text) if text == "hello"));
    assert_eq!(report.exit, None);
    assert_eq!(report.output.len(), 1);
    assert_eq!(report.output[0].stream, Stream::Stdout);
    assert_eq!(report.output[0].text, "Resumed session: id-1\n");
}

#[test]
fn sessions_that_cannot_be_loaded_begin_empty() {
    let (messages, report) = begin_session::<u8>(Some(Resumption {
        id: "id-1".to_string(),
        loaded: Err("missing".to_string()),
    }));
    assert!(messages.is_empty());
    assert_eq!(report.exit, None);
    assert_eq!(report.output[0].stream, Stream::Stderr);
    assert_eq!(report.output[0].text, "Warning: could not load session id-1: missing\n");
}

#[test]
fn new_sessions_begin_empty_and_quietly() {
    let (messages, report) = begin_session::<u8>(None);
    assert!(messages.is_empty());
    assert!(report.output.is_empty());
}
