//! The agent orchestrator: the message model, event listeners, and the
//! functions that drive one conversational turn.

pub mod session;
pub mod turn;

pub use session::Session;

use std::io::Write;

use vstd::prelude::*;

use crate::agent_core::turn::{
    assistant_acc, lemma_assistant_acc_push, lemma_outputs_push, lemma_tool_additions_push,
    outputs_of, stream_additions, tool_additions, turn_additions,
};
use crate::llm_core::{Llm, LlmError, LlmMessage, MessageView, ToolCallView};
use crate::persistence::{Persistence, StoreError};

verus! {

/// One tool invocation requested by the backend: an identifier, the tool's
/// name, and an opaque serialized argument payload that the core never
/// interprets.
#[derive(Debug, PartialEq, Eq)]
pub struct ToolCall {
    pub id: String,
    pub name: String,
    pub arguments: String,
}

impl View for ToolCall {
    type V = ToolCallView;

    open spec fn view(&self) -> ToolCallView {
        ToolCallView { id: self.id@, name: self.name@, arguments: self.arguments@ }
    }
}

impl Clone for ToolCall {
    fn clone(&self) -> (r: Self)
        ensures
            r == *self,
    {
        ToolCall { id: self.id.clone(), name: self.name.clone(), arguments: self.arguments.clone() }
    }
}

/// One unit of the conversation transcript: user text, assistant text, or a
/// tool invocation. A message is immutable once constructed; the transcript
/// changes only by appending new messages.
#[derive(Debug, PartialEq, Eq)]
pub enum AgentMessage {
    UserMessage(String),
    AssistantMessage(String),
    ToolCall(ToolCall),
}

impl View for AgentMessage {
    type V = MessageView;

    open spec fn view(&self) -> MessageView {
        match self {
            AgentMessage::UserMessage(text) => MessageView::User(text@),
            AgentMessage::AssistantMessage(text) => MessageView::Assistant(text@),
            AgentMessage::ToolCall(tc) => MessageView::Tool(tc@),
        }
    }
}

impl DeepView for AgentMessage {
    type V = MessageView;

    open spec fn deep_view(&self) -> MessageView {
        self.view()
    }
}

impl Clone for AgentMessage {
    fn clone(&self) -> (r: Self)
        ensures
            r == *self,
    {
        match self {
            AgentMessage::UserMessage(text) => AgentMessage::UserMessage(text.clone()),
            AgentMessage::AssistantMessage(text) => AgentMessage::AssistantMessage(text.clone()),
            AgentMessage::ToolCall(tc) => AgentMessage::ToolCall(tc.clone()),
        }
    }
}

impl From<&AgentMessage> for LlmMessage {
    /// Re-expresses a transcript message as a backend fragment; the view is
    /// unchanged.
    fn from(msg: &AgentMessage) -> (r: Self) {
        match msg {
            AgentMessage::UserMessage(text) => LlmMessage::UserMessage(text.clone()),
            AgentMessage::AssistantMessage(text) => LlmMessage::AssistantMessage(text.clone()),
            AgentMessage::ToolCall(tc) => LlmMessage::ToolCall(crate::llm_core::ToolCall::from(tc)),
        }
    }
}

impl vstd::std_specs::convert::FromSpecImpl<&AgentMessage> for LlmMessage {
    open spec fn obeys_from_spec() -> bool {
        true
    }

    open spec fn from_spec(msg: &AgentMessage) -> Self {
        match msg {
            AgentMessage::UserMessage(text) => LlmMessage::UserMessage(*text),
            AgentMessage::AssistantMessage(text) => LlmMessage::AssistantMessage(*text),
            AgentMessage::ToolCall(tc) => LlmMessage::ToolCall(
                crate::llm_core::ToolCall { id: tc.id, name: tc.name, arguments: tc.arguments },
            ),
        }
    }
}

impl From<&ToolCall> for crate::llm_core::ToolCall {
    /// Re-expresses a transcript tool call at the backend boundary; the view
    /// is unchanged.
    fn from(tc: &ToolCall) -> (r: Self) {
        crate::llm_core::ToolCall {
            id: tc.id.clone(),
            name: tc.name.clone(),
            arguments: tc.arguments.clone(),
        }
    }
}

impl vstd::std_specs::convert::FromSpecImpl<&ToolCall> for crate::llm_core::ToolCall {
    open spec fn obeys_from_spec() -> bool {
        true
    }

    open spec fn from_spec(tc: &ToolCall) -> Self {
        crate::llm_core::ToolCall { id: tc.id, name: tc.name, arguments: tc.arguments }
    }
}

impl From<crate::llm_core::ToolCall> for ToolCall {
    /// Normalizes a backend tool call into its transcript form; the view is
    /// unchanged.
    fn from(tc: crate::llm_core::ToolCall) -> (r: Self) {
        ToolCall { id: tc.id, name: tc.name, arguments: tc.arguments }
    }
}

impl vstd::std_specs::convert::FromSpecImpl<crate::llm_core::ToolCall> for ToolCall {
    open spec fn obeys_from_spec() -> bool {
        true
    }

    open spec fn from_spec(tc: crate::llm_core::ToolCall) -> Self {
        ToolCall { id: tc.id, name: tc.name, arguments: tc.arguments }
    }
}

/// An observer of turn lifecycle events. The orchestrator fans each
/// notification out to its listeners sequentially, in list order, and waits
/// for each call to return before making the next.
///
/// Open question: a listener that fails or hangs is not isolated from the
/// ones after it. Whether strict ordering should be traded for
/// per-listener isolation, or the choice made configurable, is left open
/// here; the sequential order is what the turn's contracts assume.
///
/// Implementations live outside the verified core; no behavior is assumed of
/// them beyond their signatures.
pub trait EventListener {
    fn on_stream_start(&self);

    fn on_user_message(&self, text: &str);

    fn on_assistant_message(&self, text: &str);

    fn on_tool_call(&self, tool_call: &ToolCall);

    fn on_stream_end(&self);
}

fn notify_stream_start(listeners: &Vec<Box<dyn EventListener>>) {
    let mut i: usize = 0;
    while i < listeners.len()
        decreases listeners.len() - i,
    {
        listeners[i].on_stream_start();
        i = i + 1;
    }
}

fn notify_user_message(listeners: &Vec<Box<dyn EventListener>>, text: &str) {
    let mut i: usize = 0;
    while i < listeners.len()
        decreases listeners.len() - i,
    {
        listeners[i].on_user_message(text);
        i = i + 1;
    }
}

fn notify_assistant_message(listeners: &Vec<Box<dyn EventListener>>, text: &str) {
    let mut i: usize = 0;
    while i < listeners.len()
        decreases listeners.len() - i,
    {
        listeners[i].on_assistant_message(text);
        i = i + 1;
    }
}

fn notify_tool_call(listeners: &Vec<Box<dyn EventListener>>, tool_call: &ToolCall) {
    let mut i: usize = 0;
    while i < listeners.len()
        decreases listeners.len() - i,
    {
        listeners[i].on_tool_call(tool_call);
        i = i + 1;
    }
}

fn notify_stream_end(listeners: &Vec<Box<dyn EventListener>>) {
    let mut i: usize = 0;
    while i < listeners.len()
        decreases listeners.len() - i,
    {
        listeners[i].on_stream_end();
        i = i + 1;
    }
}

/// Writes one line — a fixed label followed by a detail — to standard
/// output. Relies on `std::io::stdout` and `std::io::Write::write_fmt`
/// (through the `writeln` macro); a write failure is ignored, since a
/// logging sink's trouble must not disturb the turn.
#[verifier::external_body]
fn emit_line(label: &str, detail: &str) {
    let _ = writeln!(std::io::stdout(), "{}{}", label, detail);
}

/// The bundled sample listener: it logs every lifecycle event to standard
/// output.
pub struct AgentEvents;

impl EventListener for AgentEvents {
    fn on_stream_start(&self) {
        emit_line("stream started", "");
    }

    fn on_user_message(&self, text: &str) {
        emit_line(">> user message received: ", text);
    }

    fn on_assistant_message(&self, text: &str) {
        emit_line("### assistant message received: ", text);
    }

    fn on_tool_call(&self, tool_call: &ToolCall) {
        let mut detail = tool_call.id.clone();
        detail.append(" ");
        detail.append(tool_call.name.as_str());
        detail.append(" ");
        detail.append(tool_call.arguments.as_str());
        emit_line("xxx tool call received: ", detail.as_str());
    }

    fn on_stream_end(&self) {
        emit_line("stream ended", "");
    }
}

/// The length and the entries of a vector's deep view, pointwise. This is
/// how every proof below passes between a vector of messages and the
/// sequence of views its contract speaks of.
proof fn lemma_deep_view_pointwise<T: DeepView>(v: &Vec<T>)
    ensures
        v.deep_view().len() == v@.len(),
        forall|i: int| 0 <= i < v@.len() ==> v.deep_view()[i] == #[trigger] v@[i].deep_view(),
{
}

/// Re-expresses a transcript snapshot at the backend boundary, entry by
/// entry; the sequence of views is unchanged, so the backend sees the
/// conversation exactly in transcript order.
fn to_llm_history(history: &Vec<AgentMessage>) -> (r: Vec<LlmMessage>)
    ensures
        r.deep_view() == history.deep_view(),
{
    let mut snapshot: Vec<LlmMessage> = Vec::new();
    let mut i: usize = 0;
    while i < history.len()
        invariant
            i <= history.len(),
            snapshot@.len() == i,
            forall|j: int| 0 <= j < i ==> (#[trigger] snapshot@[j])@ == history@[j]@,
        decreases history.len() - i,
    {
        let converted = LlmMessage::from(&history[i]);
        proof {
            assert(converted@ == history@[i as int]@) by {
                match history@[i as int] {
                    AgentMessage::UserMessage(_) => {},
                    AgentMessage::AssistantMessage(_) => {},
                    AgentMessage::ToolCall(_) => {},
                }
            }
        }
        snapshot.push(converted);
        i = i + 1;
    }
    proof {
        lemma_deep_view_pointwise(&snapshot);
        lemma_deep_view_pointwise(history);
        assert(snapshot.deep_view() =~= history.deep_view());
    }
    snapshot
}

/// The agent orchestrator. It owns the live transcript, and each [`run`]
/// call drives one turn end-to-end: it notifies the listeners, appends and
/// persists the user's message, snapshots the transcript for the backend,
/// consumes the backend's reply fragment by fragment, and returns the
/// normalized output items.
///
/// [`run`]: AgentCore::run
pub struct AgentCore<L: Llm, P: Persistence> {
    pub llm: L,
    pub persistence: P,
    pub session: Session,
    pub event_listeners: Vec<Box<dyn EventListener>>,
    pub chat_history: Vec<AgentMessage>,
}

impl<L: Llm, P: Persistence> AgentCore<L, P> {
    /// Assembles an orchestrator around an already loaded transcript, with
    /// a freshly generated session.
    pub fn from_parts(
        llm: L,
        persistence: P,
        event_listeners: Vec<Box<dyn EventListener>>,
        chat_history: Vec<AgentMessage>,
    ) -> (r: Self)
        ensures
            r.llm == llm,
            r.persistence == persistence,
            r.event_listeners == event_listeners,
            r.chat_history == chat_history,
            r.session.id@.len() == 36,
    {
        let session = Session::new();
        AgentCore { llm, persistence, session, event_listeners, chat_history }
    }

    /// Creates a fresh session and starts from whatever transcript the
    /// store's load policy returns — possibly empty. A load failure fails
    /// construction: no orchestrator with unknown history state may run.
    pub fn new(llm: L, persistence: P, event_listeners: Vec<Box<dyn EventListener>>) -> (r: Result<
        Self,
        StoreError,
    >)
        ensures
            r matches Ok(a) ==> a.llm == llm && a.persistence == persistence
                && a.event_listeners == event_listeners && a.session.id@.len() == 36,
    {
        let chat_history = match persistence.load_context() {
            Ok(history) => history,
            Err(e) => {
                return Err(e);
            },
        };
        Ok(Self::from_parts(llm, persistence, event_listeners, chat_history))
    }

    /// Consumes one backend reply, fragment by fragment and in arrival
    /// order. For each fragment: assistant text is accumulated, notified
    /// and emitted; a tool call is notified, then appended to the
    /// transcript and persisted immediately, then emitted; a user-shaped
    /// fragment is discarded silently. After the last fragment, the
    /// accumulated assistant text — when there is any — is appended and
    /// persisted as one message, and stream-end is notified.
    ///
    /// Every store failure is swallowed: the contract below holds whatever
    /// the store's append calls return.
    pub fn process_stream(&mut self, fragments: Vec<LlmMessage>) -> (out: Vec<AgentMessage>)
        ensures
            final(self).llm == old(self).llm,
            final(self).persistence == old(self).persistence,
            final(self).session == old(self).session,
            final(self).event_listeners == old(self).event_listeners,
            final(self).chat_history.deep_view() == old(self).chat_history.deep_view()
                + stream_additions(fragments.deep_view()),
            out.deep_view() == outputs_of(fragments.deep_view()),
    {
        let mut out: Vec<AgentMessage> = Vec::new();
        let mut full_response = String::new();
        let mut i: usize = 0;
        while i < fragments.len()
            invariant
                i <= fragments.len(),
                self.llm == old(self).llm,
                self.persistence == old(self).persistence,
                self.session == old(self).session,
                self.event_listeners == old(self).event_listeners,
                self.chat_history.deep_view() == old(self).chat_history.deep_view()
                    + tool_additions(fragments.deep_view().take(i as int)),
                full_response@ == assistant_acc(fragments.deep_view().take(i as int)),
                out.deep_view() == outputs_of(fragments.deep_view().take(i as int)),
            decreases fragments.len() - i,
        {
            let ghost prefix = fragments.deep_view().take(i as int);
            let ghost fv = fragments.deep_view()[i as int];
            proof {
                assert(fragments.deep_view().take(i as int + 1) =~= prefix.push(fv));
                lemma_tool_additions_push(prefix, fv);
                lemma_assistant_acc_push(prefix, fv);
                lemma_outputs_push(prefix, fv);
            }
            let frag = &fragments[i];
            match frag {
                LlmMessage::AssistantMessage(text) => {
                    full_response.append(text.as_str());
                    notify_assistant_message(&self.event_listeners, text.as_str());
                    out.push(AgentMessage::AssistantMessage(text.clone()));
                    proof {
                        assert(out.deep_view() =~= outputs_of(prefix) + seq![
                            MessageView::Assistant(text@),
                        ]);
                        assert(self.chat_history.deep_view() =~= old(
                            self,
                        ).chat_history.deep_view() + tool_additions(prefix.push(fv)));
                    }
                },
                LlmMessage::ToolCall(tc) => {
                    let tool_call = ToolCall::from(tc.clone());
                    notify_tool_call(&self.event_listeners, &tool_call);
                    self.chat_history.push(AgentMessage::ToolCall(tool_call.clone()));
                    let stored = AgentMessage::ToolCall(tool_call.clone());
                    let _ = self.persistence.store_chat_message(&stored, self.session.id.as_str());
                    out.push(AgentMessage::ToolCall(tool_call));
                    proof {
                        assert(out.deep_view() =~= outputs_of(prefix) + seq![
                            MessageView::Tool(tc@),
                        ]);
                        assert(self.chat_history.deep_view() =~= (old(
                            self,
                        ).chat_history.deep_view() + tool_additions(prefix)) + seq![
                            MessageView::Tool(tc@),
                        ]);
                        assert((old(self).chat_history.deep_view() + tool_additions(prefix))
                            + seq![MessageView::Tool(tc@)] =~= old(self).chat_history.deep_view()
                            + (tool_additions(prefix) + seq![MessageView::Tool(tc@)]));
                    }
                },
                LlmMessage::UserMessage(_) => {
                    // A user-shaped fragment from the backend: tolerated and
                    // discarded on purpose, not an error.
                    proof {
                        assert(out.deep_view() =~= outputs_of(prefix.push(fv)));
                        assert(self.chat_history.deep_view() =~= old(
                            self,
                        ).chat_history.deep_view() + tool_additions(prefix.push(fv)));
                        assert(full_response@ =~= assistant_acc(prefix.push(fv)));
                    }
                },
            }
            i = i + 1;
        }
        proof {
            assert(fragments.deep_view().take(fragments.len() as int) =~= fragments.deep_view());
        }
        let ghost gfrags = fragments.deep_view();
        if !full_response.as_str().is_empty() {
            let assistant_msg = AgentMessage::AssistantMessage(full_response);
            self.chat_history.push(assistant_msg.clone());
            let _ = self.persistence.store_chat_message(&assistant_msg, self.session.id.as_str());
            proof {
                assert(self.chat_history.deep_view() =~= (old(self).chat_history.deep_view()
                    + tool_additions(gfrags)) + seq![
                    MessageView::Assistant(assistant_acc(gfrags)),
                ]);
                assert(self.chat_history.deep_view() =~= old(self).chat_history.deep_view()
                    + stream_additions(gfrags));
            }
        } else {
            proof {
                assert(self.chat_history.deep_view() =~= old(self).chat_history.deep_view()
                    + stream_additions(gfrags));
            }
        }
        notify_stream_end(&self.event_listeners);
        out
    }

    /// Drives one turn end-to-end, in the fixed observable order: notify
    /// stream-start, notify the user's message, append it to the transcript
    /// and persist it (a store failure is swallowed), snapshot the
    /// transcript, open the backend's reply, and hand the reply to
    /// [`process_stream`]. Only a backend that fails to open its reply
    /// aborts the turn; the user's message then stays appended and
    /// persisted, and no output item is produced.
    ///
    /// The postconditions name no store result: a store whose appends all
    /// fail changes neither the transcript nor the output items.
    ///
    /// The backend's reply is consumed in full within the call, so the
    /// caller receives the whole, finite output sequence at once; a turn
    /// cannot be abandoned halfway through its reply.
    ///
    /// [`process_stream`]: AgentCore::process_stream
    pub fn run(&mut self, user_message: &str) -> (r: Result<Vec<AgentMessage>, LlmError>)
        ensures
            final(self).llm == old(self).llm,
            final(self).persistence == old(self).persistence,
            final(self).session == old(self).session,
            final(self).event_listeners == old(self).event_listeners,
            old(self).chat_history.deep_view().is_prefix_of(final(self).chat_history.deep_view()),
            final(self).chat_history.deep_view().len() > old(self).chat_history.deep_view().len(),
            final(self).chat_history.deep_view()[old(self).chat_history.deep_view().len() as int]
                == MessageView::User(user_message@),
            r matches Ok(out) ==> exists|frags: Seq<MessageView>|
                {
                    &&& final(self).chat_history.deep_view() == old(self).chat_history.deep_view()
                        + #[trigger] turn_additions(user_message@, frags)
                    &&& out.deep_view() == outputs_of(frags)
                },
            r matches Err(_) ==> final(self).chat_history.deep_view() == old(
                self,
            ).chat_history.deep_view() + seq![MessageView::User(user_message@)],
    {
        notify_stream_start(&self.event_listeners);
        notify_user_message(&self.event_listeners, user_message);

        let user_msg = AgentMessage::UserMessage(user_message.to_owned());
        self.chat_history.push(user_msg.clone());
        let _ = self.persistence.store_chat_message(&user_msg, self.session.id.as_str());
        proof {
            assert(self.chat_history.deep_view() =~= old(self).chat_history.deep_view() + seq![
                MessageView::User(user_message@),
            ]);
        }

        let snapshot = to_llm_history(&self.chat_history);
        let outcome = self.llm.generate_response(snapshot, user_message.to_owned());
        let ghost mid = self.chat_history.deep_view();
        match outcome {
            Ok(fragments) => {
                let ghost gfrags = fragments.deep_view();
                let out = self.process_stream(fragments);
                proof {
                    assert(self.chat_history.deep_view() =~= old(self).chat_history.deep_view()
                        + turn_additions(user_message@, gfrags));
                    assert(old(self).chat_history.deep_view().is_prefix_of(
                        self.chat_history.deep_view(),
                    )) by {
                        assert(self.chat_history.deep_view().take(
                            old(self).chat_history.deep_view().len() as int,
                        ) =~= old(self).chat_history.deep_view());
                    }
                }
                Ok(out)
            },
            Err(e) => {
                proof {
                    assert(old(self).chat_history.deep_view().is_prefix_of(
                        self.chat_history.deep_view(),
                    )) by {
                        assert(self.chat_history.deep_view().take(
                            old(self).chat_history.deep_view().len() as int,
                        ) =~= old(self).chat_history.deep_view());
                    }
                }
                Err(e)
            },
        }
    }
}

} // verus!
