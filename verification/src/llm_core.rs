//! The completion-backend boundary: the fragment type streamed back by a
//! backend, the input representation a backend receives, and the abstract
//! backend capability itself.

use vstd::prelude::*;

verus! {

/// Mathematical model of a tool invocation: the three fields as character
/// sequences.
pub struct ToolCallView {
    pub id: Seq<char>,
    pub name: Seq<char>,
    pub arguments: Seq<char>,
}

/// Mathematical model of one conversational unit. The transcript message
/// type and the backend fragment type share this model, so normalizing a
/// fragment into a transcript message preserves the view.
pub enum MessageView {
    User(Seq<char>),
    Assistant(Seq<char>),
    Tool(ToolCallView),
}

/// A tool invocation as a backend emits it.
#[derive(Debug, PartialEq, Eq)]
pub struct ToolCall {
    pub id: String,
    pub name: String,
    pub arguments: String,
}

impl View for ToolCall {
    type V = ToolCallView;

    open spec fn view(&self) -> ToolCallView {
        ToolCallView { id: self.id@, name: self.name@, arguments: self.arguments@ }
    }
}

impl Clone for ToolCall {
    fn clone(&self) -> (r: Self)
        ensures
            r == *self,
    {
        ToolCall { id: self.id.clone(), name: self.name.clone(), arguments: self.arguments.clone() }
    }
}

/// One fragment of a backend's streamed reply. A backend is expected to emit
/// only assistant text and tool calls; a user-shaped fragment is tolerated
/// at this boundary and silently discarded by the orchestrator.
#[derive(Debug, PartialEq, Eq)]
pub enum LlmMessage {
    UserMessage(String),
    AssistantMessage(String),
    ToolCall(ToolCall),
}

impl View for LlmMessage {
    type V = MessageView;

    open spec fn view(&self) -> MessageView {
        match self {
            LlmMessage::UserMessage(text) => MessageView::User(text@),
            LlmMessage::AssistantMessage(text) => MessageView::Assistant(text@),
            LlmMessage::ToolCall(tc) => MessageView::Tool(tc@),
        }
    }
}

impl DeepView for LlmMessage {
    type V = MessageView;

    open spec fn deep_view(&self) -> MessageView {
        self.view()
    }
}

impl Clone for LlmMessage {
    fn clone(&self) -> (r: Self)
        ensures
            r == *self,
    {
        match self {
            LlmMessage::UserMessage(text) => LlmMessage::UserMessage(text.clone()),
            LlmMessage::AssistantMessage(text) => LlmMessage::AssistantMessage(text.clone()),
            LlmMessage::ToolCall(tc) => LlmMessage::ToolCall(tc.clone()),
        }
    }
}

/// The role a prompt entry is attributed to when a transcript is handed to a
/// backend.
#[derive(Debug, PartialEq, Eq, Structural, Clone, Copy)]
pub enum PromptRole {
    User,
    Assistant,
}

/// Mathematical model of a [`PromptMessage`].
pub struct PromptMessageView {
    pub role: PromptRole,
    pub content: Seq<char>,
}

/// One entry of the input representation a backend receives: a role and a
/// plain text. Concrete backend clients translate this pair into whatever
/// their wire format expects.
#[derive(Debug, PartialEq, Eq)]
pub struct PromptMessage {
    pub role: PromptRole,
    pub content: String,
}

impl View for PromptMessage {
    type V = PromptMessageView;

    open spec fn view(&self) -> PromptMessageView {
        PromptMessageView { role: self.role, content: self.content@ }
    }
}

impl DeepView for PromptMessage {
    type V = PromptMessageView;

    open spec fn deep_view(&self) -> PromptMessageView {
        self.view()
    }
}

/// The input representation of one conversational unit: user text keeps the
/// user role, assistant text the assistant role, and a tool call becomes an
/// assistant-role line naming the tool. The tool-call case is a lossy,
/// display-oriented degradation, not a faithful encoding of the call.
pub open spec fn spec_prompt_of(m: MessageView) -> PromptMessageView {
    match m {
        MessageView::User(t) => PromptMessageView { role: PromptRole::User, content: t },
        MessageView::Assistant(t) => PromptMessageView { role: PromptRole::Assistant, content: t },
        MessageView::Tool(tc) => PromptMessageView {
            role: PromptRole::Assistant,
            content: "[Tool Call: "@ + tc.name + "]"@,
        },
    }
}

impl LlmMessage {
    /// Renders this fragment in the backend's input representation, as
    /// [`spec_prompt_of`] describes.
    pub fn to_prompt_message(&self) -> (r: PromptMessage)
        ensures
            r@ == spec_prompt_of(self@),
    {
        match self {
            LlmMessage::UserMessage(text) => PromptMessage {
                role: PromptRole::User,
                content: text.clone(),
            },
            LlmMessage::AssistantMessage(text) => PromptMessage {
                role: PromptRole::Assistant,
                content: text.clone(),
            },
            LlmMessage::ToolCall(tc) => {
                let mut content = String::from_str("[Tool Call: ");
                content.append(tc.name.as_str());
                content.append("]");
                PromptMessage { role: PromptRole::Assistant, content }
            },
        }
    }
}

/// The turn-level failure a backend reports when it cannot open its reply
/// stream.
#[derive(Debug, PartialEq, Eq)]
pub struct LlmError {
    pub message: String,
}

impl Clone for LlmError {
    fn clone(&self) -> (r: Self)
        ensures
            r == *self,
    {
        LlmError { message: self.message.clone() }
    }
}

/// The abstract completion backend. Given a snapshot of the transcript and
/// the new prompt, it either returns its full, finite reply as a sequence of
/// fragments in arrival order, or fails to open its stream, which aborts the
/// turn. A concrete client renders each snapshot entry through
/// [`LlmMessage::to_prompt_message`] before putting it on the wire.
///
/// Implementations live outside the verified core; no behavior is assumed of
/// them beyond their signature.
pub trait Llm {
    fn generate_response(&self, chat_history: Vec<LlmMessage>, prompt: String) -> Result<
        Vec<LlmMessage>,
        LlmError,
    >;
}

} // verus!
