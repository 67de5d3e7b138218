use std::collections::HashMap;

use llm_cli::agent_core::AgentMessage;
use llm_cli::persistence::local::{
    append_record, records_to_messages, LocalPersistence, TimestampedMessage,
};

fn user(text: &str) -> AgentMessage {
    AgentMessage::UserMessage(text.to_string())
}

#[test]
fn per_session_storage_path() {
    let store = LocalPersistence::new("root", "abc", false);
    assert_eq!(store.storage_path(), "root/abc/chat.json".to_string());
    assert_eq!(store.scope_id(), "abc".to_string());
}

#[test]
fn shared_storage_path_ignores_session() {
    let store = LocalPersistence::new("root", "abc", true);
    assert_eq!(store.storage_path(), "root/global/chat.json".to_string());
    assert_eq!(store.scope_id(), "global".to_string());
}

#[test]
fn scope_isolation_round_trip() {
    // A fake directory tree: path -> the record file's contents.
    let mut files: HashMap<String, Vec<TimestampedMessage>> = HashMap::new();

    // Two sessions, per-session isolation, one root.
    let first = LocalPersistence::new("root", "session-one", false);
    let second = LocalPersistence::new("root", "session-two", false);
    assert_ne!(first.storage_path(), second.storage_path());

    append_record(files.entry(first.storage_path()).or_default(), user("from one"));
    append_record(files.entry(second.storage_path()).or_default(), user("from two"));

    assert_eq!(files.len(), 2);
    let first_messages = records_to_messages(&files[&first.storage_path()]);
    let second_messages = records_to_messages(&files[&second.storage_path()]);
    assert_eq!(first_messages, vec![user("from one")]);
    assert_eq!(second_messages, vec![user("from two")]);

    // The same two sessions under shared global history: one growing record.
    let mut shared_files: HashMap<String, Vec<TimestampedMessage>> = HashMap::new();
    let first_shared = LocalPersistence::new("root", "session-one", true);
    let second_shared = LocalPersistence::new("root", "session-two", true);
    assert_eq!(first_shared.storage_path(), second_shared.storage_path());

    append_record(
        shared_files.entry(first_shared.storage_path()).or_default(),
        user("from one"),
    );
    append_record(
        shared_files.entry(second_shared.storage_path()).or_default(),
        user("from two"),
    );

    assert_eq!(shared_files.len(), 1);
    let shared_messages = records_to_messages(&shared_files[&first_shared.storage_path()]);
    assert_eq!(shared_messages, vec![user("from one"), user("from two")]);
}

#[test]
fn append_record_keeps_existing_records() {
    let mut records: Vec<TimestampedMessage> = Vec::new();
    append_record(&mut records, user("first"));
    let first_record = records[0].clone();

    append_record(&mut records, user("second"));

    assert_eq!(records.len(), 2);
    assert_eq!(records[0], first_record);
    assert_eq!(records[1].message, user("second"));
}

#[test]
fn timestamp_is_rfc3339_shaped() {
    let record = TimestampedMessage::now(user("x"));
    assert_eq!(record.message, user("x"));
    // An RFC 3339 text always separates date and time with a 'T'.
    assert!(record.timestamp.contains('T'));
    assert!(record.timestamp.len() >= 19);
}

#[test]
fn records_to_messages_strips_timestamps_in_order() {
    let mut records: Vec<TimestampedMessage> = Vec::new();
    append_record(&mut records, user("a"));
    append_record(&mut records, AgentMessage::AssistantMessage("b".to_string()));

    let messages = records_to_messages(&records);

    assert_eq!(
        messages,
        vec![user("a"), AgentMessage::AssistantMessage("b".to_string())]
    );
}
