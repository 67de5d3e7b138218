use std::cell::RefCell;
use std::rc::Rc;

use llm_cli::agent_core::{AgentCore, AgentMessage, EventListener, ToolCall};
use llm_cli::llm_core::ToolCall as LlmToolCall;
use llm_cli::llm_core::{Llm, LlmError, LlmMessage};
use llm_cli::persistence::{Persistence, StoreError};

#[derive(Clone)]
struct SharedLog(Rc<RefCell<Vec<String>>>);

impl SharedLog {
    fn new() -> Self {
        SharedLog(Rc::new(RefCell::new(Vec::new())))
    }

    fn push(&self, entry: String) {
        self.0.borrow_mut().push(entry);
    }

    fn entries(&self) -> Vec<String> {
        self.0.borrow().clone()
    }

    fn position(&self, entry: &str) -> usize {
        self.entries()
            .iter()
            .position(|e| e == entry)
            .unwrap_or_else(|| panic!("log entry not found: {}", entry))
    }
}

fn render(message: &AgentMessage) -> String {
    match message {
        AgentMessage::UserMessage(text) => format!("user:{}", text),
        AgentMessage::AssistantMessage(text) => format!("assistant:{}", text),
        AgentMessage::ToolCall(tc) => format!("tool:{}", tc.name),
    }
}

struct ScriptedLlm {
    reply: Vec<LlmMessage>,
}

impl Llm for ScriptedLlm {
    fn generate_response(
        &self,
        _chat_history: Vec<LlmMessage>,
        _prompt: String,
    ) -> Result<Vec<LlmMessage>, LlmError> {
        Ok(self.reply.clone())
    }
}

struct FailingLlm;

impl Llm for FailingLlm {
    fn generate_response(
        &self,
        _chat_history: Vec<LlmMessage>,
        _prompt: String,
    ) -> Result<Vec<LlmMessage>, LlmError> {
        Err(LlmError {
            message: "backend offline".to_string(),
        })
    }
}

struct RecordingStore {
    log: SharedLog,
    fail_appends: bool,
    preloaded: Vec<AgentMessage>,
}

impl RecordingStore {
    fn new(log: SharedLog) -> Self {
        RecordingStore {
            log,
            fail_appends: false,
            preloaded: Vec::new(),
        }
    }
}

impl Persistence for RecordingStore {
    fn store_chat_message(
        &self,
        message: &AgentMessage,
        _session_id: &str,
    ) -> Result<(), StoreError> {
        self.log.push(format!("store:{}", render(message)));
        if self.fail_appends {
            Err(StoreError {
                message: "disk full".to_string(),
            })
        } else {
            Ok(())
        }
    }

    fn load_context(&self) -> Result<Vec<AgentMessage>, StoreError> {
        Ok(self.preloaded.clone())
    }
}

struct LoadFailingStore;

impl Persistence for LoadFailingStore {
    fn store_chat_message(
        &self,
        _message: &AgentMessage,
        _session_id: &str,
    ) -> Result<(), StoreError> {
        Ok(())
    }

    fn load_context(&self) -> Result<Vec<AgentMessage>, StoreError> {
        Err(StoreError {
            message: "record unreadable".to_string(),
        })
    }
}

struct RecordingListener {
    log: SharedLog,
}

impl EventListener for RecordingListener {
    fn on_stream_start(&self) {
        self.log.push("listener:start".to_string());
    }

    fn on_user_message(&self, text: &str) {
        self.log.push(format!("listener:user:{}", text));
    }

    fn on_assistant_message(&self, text: &str) {
        self.log.push(format!("listener:assistant:{}", text));
    }

    fn on_tool_call(&self, tool_call: &ToolCall) {
        self.log.push(format!("listener:tool:{}", tool_call.name));
    }

    fn on_stream_end(&self) {
        self.log.push("listener:end".to_string());
    }
}

fn assistant_fragment(text: &str) -> LlmMessage {
    LlmMessage::AssistantMessage(text.to_string())
}

fn tool_fragment(id: &str, name: &str, arguments: &str) -> LlmMessage {
    LlmMessage::ToolCall(LlmToolCall {
        id: id.to_string(),
        name: name.to_string(),
        arguments: arguments.to_string(),
    })
}

fn listeners_for(log: &SharedLog) -> Vec<Box<dyn EventListener>> {
    vec![Box::new(RecordingListener { log: log.clone() })]
}

#[test]
fn order_preservation_mixed_fragments() {
    let log = SharedLog::new();
    let llm = ScriptedLlm {
        reply: vec![
            assistant_fragment("first"),
            tool_fragment("1", "search", "{}"),
            LlmMessage::UserMessage("bogus".to_string()),
            assistant_fragment("second"),
        ],
    };
    let mut agent =
        AgentCore::new(llm, RecordingStore::new(log.clone()), listeners_for(&log)).unwrap();

    let out = agent.run("hello").unwrap();

    assert_eq!(out.len(), 3);
    assert_eq!(out[0], AgentMessage::AssistantMessage("first".to_string()));
    assert_eq!(
        out[1],
        AgentMessage::ToolCall(ToolCall {
            id: "1".to_string(),
            name: "search".to_string(),
            arguments: "{}".to_string(),
        })
    );
    assert_eq!(out[2], AgentMessage::AssistantMessage("second".to_string()));
}

#[test]
fn transcript_append_only_across_turns() {
    let log = SharedLog::new();
    let llm = ScriptedLlm {
        reply: vec![assistant_fragment("reply")],
    };
    let mut agent =
        AgentCore::new(llm, RecordingStore::new(log.clone()), listeners_for(&log)).unwrap();

    agent.run("one").unwrap();
    let after_first = agent.chat_history.clone();

    agent.run("two").unwrap();
    let after_second = agent.chat_history.clone();

    assert!(after_second.len() >= after_first.len());
    for (i, message) in after_first.iter().enumerate() {
        assert_eq!(&after_second[i], message);
    }
    assert_eq!(
        after_second[after_first.len()],
        AgentMessage::UserMessage("two".to_string())
    );
}

#[test]
fn assistant_text_coalescing() {
    let log = SharedLog::new();
    let llm = ScriptedLlm {
        reply: vec![assistant_fragment("Hel"), assistant_fragment("lo")],
    };
    let mut agent =
        AgentCore::new(llm, RecordingStore::new(log.clone()), listeners_for(&log)).unwrap();

    let out = agent.run("hi").unwrap();

    // Two output items, one per fragment, still reach the caller.
    assert_eq!(out.len(), 2);
    assert_eq!(out[0], AgentMessage::AssistantMessage("Hel".to_string()));
    assert_eq!(out[1], AgentMessage::AssistantMessage("lo".to_string()));

    // Exactly one assistant message, holding the whole text, is appended.
    let assistant_entries: Vec<&AgentMessage> = agent
        .chat_history
        .iter()
        .filter(|m| matches!(m, AgentMessage::AssistantMessage(_)))
        .collect();
    assert_eq!(assistant_entries.len(), 1);
    assert_eq!(
        assistant_entries[0],
        &AgentMessage::AssistantMessage("Hello".to_string())
    );

    // And exactly one assistant append reaches the store.
    let stored_assistant: Vec<String> = log
        .entries()
        .into_iter()
        .filter(|e| e.starts_with("store:assistant:"))
        .collect();
    assert_eq!(stored_assistant, vec!["store:assistant:Hello".to_string()]);
}

#[test]
fn empty_stream_turn() {
    let log = SharedLog::new();
    let llm = ScriptedLlm { reply: vec![] };
    let mut agent =
        AgentCore::new(llm, RecordingStore::new(log.clone()), listeners_for(&log)).unwrap();

    let out = agent.run("ping").unwrap();

    assert!(out.is_empty());
    assert_eq!(
        agent.chat_history,
        vec![AgentMessage::UserMessage("ping".to_string())]
    );
    assert_eq!(
        log.entries(),
        vec![
            "listener:start".to_string(),
            "listener:user:ping".to_string(),
            "store:user:ping".to_string(),
            "listener:end".to_string(),
        ]
    );
}

#[test]
fn storage_outage_tolerance() {
    let healthy_log = SharedLog::new();
    let healthy_llm = ScriptedLlm {
        reply: vec![
            assistant_fragment("a"),
            tool_fragment("7", "lookup", "{\"q\":1}"),
        ],
    };
    let mut healthy = AgentCore::new(
        healthy_llm,
        RecordingStore::new(healthy_log.clone()),
        listeners_for(&healthy_log),
    )
    .unwrap();

    let failing_log = SharedLog::new();
    let failing_llm = ScriptedLlm {
        reply: vec![
            assistant_fragment("a"),
            tool_fragment("7", "lookup", "{\"q\":1}"),
        ],
    };
    let mut failing_store = RecordingStore::new(failing_log.clone());
    failing_store.fail_appends = true;
    let mut failing =
        AgentCore::new(failing_llm, failing_store, listeners_for(&failing_log)).unwrap();

    let healthy_out = healthy.run("go").unwrap();
    let failing_out = failing.run("go").unwrap();

    assert_eq!(healthy_out, failing_out);
    assert_eq!(healthy.chat_history, failing.chat_history);
    assert_eq!(healthy_log.entries(), failing_log.entries());
}

#[test]
fn tool_call_persisted_eagerly() {
    let log = SharedLog::new();
    let llm = ScriptedLlm {
        reply: vec![tool_fragment("9", "fetch", "{}"), assistant_fragment("done")],
    };
    let mut agent =
        AgentCore::new(llm, RecordingStore::new(log.clone()), listeners_for(&log)).unwrap();

    agent.run("go").unwrap();

    // The tool call reaches the store within its own fragment's step: after
    // its own notification, before any later fragment's effects and before
    // the end-of-stream flush of assistant text.
    let tool_notified = log.position("listener:tool:fetch");
    let tool_stored = log.position("store:tool:fetch");
    let assistant_notified = log.position("listener:assistant:done");
    let assistant_stored = log.position("store:assistant:done");
    let ended = log.position("listener:end");

    assert!(tool_notified < tool_stored);
    assert!(tool_stored < assistant_notified);
    assert!(tool_stored < assistant_stored);
    assert!(tool_stored < ended);
    assert!(assistant_stored < ended);
}

#[test]
fn user_fragments_from_backend_are_discarded() {
    let log = SharedLog::new();
    let llm = ScriptedLlm {
        reply: vec![LlmMessage::UserMessage("not yours".to_string())],
    };
    let mut agent =
        AgentCore::new(llm, RecordingStore::new(log.clone()), listeners_for(&log)).unwrap();

    let out = agent.run("hi").unwrap();

    assert!(out.is_empty());
    assert_eq!(
        agent.chat_history,
        vec![AgentMessage::UserMessage("hi".to_string())]
    );
    // No notification and no store append for the discarded fragment.
    assert_eq!(
        log.entries(),
        vec![
            "listener:start".to_string(),
            "listener:user:hi".to_string(),
            "store:user:hi".to_string(),
            "listener:end".to_string(),
        ]
    );
}

#[test]
fn backend_failure_aborts_turn_but_keeps_user_message() {
    let log = SharedLog::new();
    let mut agent = AgentCore::new(
        FailingLlm,
        RecordingStore::new(log.clone()),
        listeners_for(&log),
    )
    .unwrap();

    let outcome = agent.run("hello");

    let err = outcome.unwrap_err();
    assert_eq!(err.message, "backend offline");
    assert_eq!(
        agent.chat_history,
        vec![AgentMessage::UserMessage("hello".to_string())]
    );
    // Steps up to the store append ran; no stream-end was notified.
    assert_eq!(
        log.entries(),
        vec![
            "listener:start".to_string(),
            "listener:user:hello".to_string(),
            "store:user:hello".to_string(),
        ]
    );
}

#[test]
fn construction_fails_on_load_failure() {
    let outcome = AgentCore::new(FailingLlm, LoadFailingStore, Vec::new());
    let err = outcome.err().unwrap();
    assert_eq!(err.message, "record unreadable");
}

#[test]
fn construction_loads_previous_transcript() {
    let log = SharedLog::new();
    let mut store = RecordingStore::new(log.clone());
    store.preloaded = vec![
        AgentMessage::UserMessage("earlier".to_string()),
        AgentMessage::AssistantMessage("indeed".to_string()),
    ];
    let llm = ScriptedLlm { reply: vec![] };

    let agent = AgentCore::new(llm, store, listeners_for(&log)).unwrap();

    assert_eq!(agent.chat_history.len(), 2);
    assert_eq!(
        agent.chat_history[0],
        AgentMessage::UserMessage("earlier".to_string())
    );
    assert_eq!(agent.session.id.len(), 36);
}

#[test]
fn empty_user_text_is_tolerated() {
    let log = SharedLog::new();
    let llm = ScriptedLlm {
        reply: vec![assistant_fragment("still here")],
    };
    let mut agent =
        AgentCore::new(llm, RecordingStore::new(log.clone()), listeners_for(&log)).unwrap();

    let out = agent.run("").unwrap();

    assert_eq!(out.len(), 1);
    assert_eq!(
        agent.chat_history[0],
        AgentMessage::UserMessage("".to_string())
    );
    assert_eq!(log.entries()[2], "store:user:".to_string());
}

#[test]
fn listeners_are_notified_in_list_order() {
    let log = SharedLog::new();
    let first = RecordingListener { log: log.clone() };
    let second_log = SharedLog::new();
    let second = RecordingListener {
        log: second_log.clone(),
    };
    let shared = SharedLog::new();
    let order_a = OrderListener {
        tag: "a",
        log: shared.clone(),
    };
    let order_b = OrderListener {
        tag: "b",
        log: shared.clone(),
    };
    let llm = ScriptedLlm { reply: vec![] };
    let listeners: Vec<Box<dyn EventListener>> = vec![
        Box::new(first),
        Box::new(second),
        Box::new(order_a),
        Box::new(order_b),
    ];
    let mut agent = AgentCore::new(llm, RecordingStore::new(SharedLog::new()), listeners).unwrap();

    agent.run("x").unwrap();

    assert_eq!(log.entries()[0], "listener:start".to_string());
    assert_eq!(second_log.entries()[0], "listener:start".to_string());
    assert_eq!(
        shared.entries(),
        vec![
            "a:start".to_string(),
            "b:start".to_string(),
            "a:user".to_string(),
            "b:user".to_string(),
            "a:end".to_string(),
            "b:end".to_string(),
        ]
    );
}

struct OrderListener {
    tag: &'static str,
    log: SharedLog,
}

impl EventListener for OrderListener {
    fn on_stream_start(&self) {
        self.log.push(format!("{}:start", self.tag));
    }

    fn on_user_message(&self, _text: &str) {
        self.log.push(format!("{}:user", self.tag));
    }

    fn on_assistant_message(&self, _text: &str) {
        self.log.push(format!("{}:assistant", self.tag));
    }

    fn on_tool_call(&self, _tool_call: &ToolCall) {
        self.log.push(format!("{}:tool", self.tag));
    }

    fn on_stream_end(&self) {
        self.log.push(format!("{}:end", self.tag));
    }
}
