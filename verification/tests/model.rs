use llm_cli::agent_core::{AgentEvents, AgentMessage, EventListener, Session, ToolCall};
use llm_cli::cli::is_exit_command;
use llm_cli::llm_core::ToolCall as LlmToolCall;
use llm_cli::llm_core::{LlmMessage, PromptMessage, PromptRole};

fn llm_tool(id: &str, name: &str, arguments: &str) -> LlmToolCall {
    LlmToolCall {
        id: id.to_string(),
        name: name.to_string(),
        arguments: arguments.to_string(),
    }
}

#[test]
fn prompt_of_user_keeps_user_role() {
    let fragment = LlmMessage::UserMessage("hello".to_string());
    assert_eq!(
        fragment.to_prompt_message(),
        PromptMessage {
            role: PromptRole::User,
            content: "hello".to_string(),
        }
    );
}

#[test]
fn prompt_of_assistant_keeps_assistant_role() {
    let fragment = LlmMessage::AssistantMessage("sure".to_string());
    assert_eq!(
        fragment.to_prompt_message(),
        PromptMessage {
            role: PromptRole::Assistant,
            content: "sure".to_string(),
        }
    );
}

#[test]
fn prompt_of_tool_call_is_lossy_summary() {
    let fragment = LlmMessage::ToolCall(llm_tool("1", "search", "{\"q\":\"x\"}"));
    assert_eq!(
        fragment.to_prompt_message(),
        PromptMessage {
            role: PromptRole::Assistant,
            content: "[Tool Call: search]".to_string(),
        }
    );
}

#[test]
fn transcript_message_converts_to_fragment_unchanged() {
    let message = AgentMessage::ToolCall(ToolCall {
        id: "1".to_string(),
        name: "search".to_string(),
        arguments: "{}".to_string(),
    });
    assert_eq!(
        LlmMessage::from(&message),
        LlmMessage::ToolCall(llm_tool("1", "search", "{}"))
    );

    let text = AgentMessage::UserMessage("hi".to_string());
    assert_eq!(
        LlmMessage::from(&text),
        LlmMessage::UserMessage("hi".to_string())
    );
}

#[test]
fn backend_tool_call_normalizes_unchanged() {
    let normalized = ToolCall::from(llm_tool("9", "fetch", "{\"u\":2}"));
    assert_eq!(
        normalized,
        ToolCall {
            id: "9".to_string(),
            name: "fetch".to_string(),
            arguments: "{\"u\":2}".to_string(),
        }
    );
}

#[test]
fn sessions_are_fresh_and_36_characters() {
    let one = Session::new();
    let two = Session::new();
    assert_eq!(one.id.len(), 36);
    assert_eq!(two.id.len(), 36);
    assert_ne!(one.id, two.id);
}

#[test]
fn exit_commands_end_the_loop() {
    assert!(is_exit_command(&"".to_string()));
    assert!(is_exit_command(&"exit".to_string()));
    assert!(is_exit_command(&"quit".to_string()));
    assert!(!is_exit_command(&"hello".to_string()));
    assert!(!is_exit_command(&"Exit".to_string()));
    assert!(!is_exit_command(&"quit now".to_string()));
}

#[test]
fn bundled_listener_logs_without_panicking() {
    let listener = AgentEvents;
    listener.on_stream_start();
    listener.on_user_message("hi");
    listener.on_assistant_message("hello");
    listener.on_tool_call(&ToolCall {
        id: "1".to_string(),
        name: "search".to_string(),
        arguments: "{}".to_string(),
    });
    listener.on_stream_end();
}
