//! The local store's layout rules: which file a scope's transcript lives
//! in, and how one record is appended to it.
//!
//! The file I/O itself — reading, decoding, and rewriting the record file —
//! is carried out by the embedding program; the functions here fix the
//! location of each scope's record and the shape of what is stored, and the
//! proofs at the end state the isolation laws of that layout.

use vstd::prelude::*;

use crate::agent_core::AgentMessage;
use crate::llm_core::MessageView;

verus! {

/// Mathematical model of a [`LocalPersistence`] configuration.
pub struct LocalPersistenceView {
    pub root_dir: Seq<char>,
    pub session_id: Seq<char>,
    pub global_persistence: bool,
}

/// The local, file-backed store configuration: a root directory, the owning
/// session's identifier, and the load policy. With `global_persistence` the
/// store reads and appends one shared record under the fixed scope
/// `global`; without it, each session gets its own record, isolated from
/// every other session's.
#[derive(Debug)]
pub struct LocalPersistence {
    root_dir: String,
    global_persistence: bool,
    session_id: String,
}

impl View for LocalPersistence {
    type V = LocalPersistenceView;

    closed spec fn view(&self) -> LocalPersistenceView {
        LocalPersistenceView {
            root_dir: self.root_dir@,
            session_id: self.session_id@,
            global_persistence: self.global_persistence,
        }
    }
}

/// The storage partition key a configuration selects: the fixed literal
/// `global` under shared history, the session's own identifier otherwise.
pub open spec fn spec_scope_id(c: LocalPersistenceView) -> Seq<char> {
    if c.global_persistence {
        "global"@
    } else {
        c.session_id
    }
}

/// The file a configuration's transcript record lives in:
/// `{root}/{scope}/chat.json`.
pub open spec fn spec_storage_path(c: LocalPersistenceView) -> Seq<char> {
    c.root_dir + "/"@ + spec_scope_id(c) + "/chat.json"@
}

impl LocalPersistence {
    /// Remembers the root directory, the session identifier, and the load
    /// policy; nothing is touched on disk yet.
    pub fn new(root_dir: &str, session_id: &str, use_global_persistence: bool) -> (r: Self)
        ensures
            r@ == (LocalPersistenceView {
                root_dir: root_dir@,
                session_id: session_id@,
                global_persistence: use_global_persistence,
            }),
    {
        LocalPersistence {
            root_dir: root_dir.to_owned(),
            session_id: session_id.to_owned(),
            global_persistence: use_global_persistence,
        }
    }

    /// The storage partition key this store writes under.
    pub fn scope_id(&self) -> (r: String)
        ensures
            r@ == spec_scope_id(self@),
    {
        if self.global_persistence {
            String::from_str("global")
        } else {
            self.session_id.clone()
        }
    }

    /// The file this store's transcript record lives in.
    pub fn storage_path(&self) -> (r: String)
        ensures
            r@ == spec_storage_path(self@),
    {
        let mut path = self.root_dir.clone();
        path.append("/");
        let scope = self.scope_id();
        path.append(scope.as_str());
        path.append("/chat.json");
        path
    }
}

/// Mathematical model of a [`TimestampedMessage`].
pub struct TimestampedMessageView {
    pub timestamp: Seq<char>,
    pub message: MessageView,
}

/// One persisted record: a message together with the civil time it was
/// appended, as an RFC 3339 text.
#[derive(Debug, PartialEq, Eq)]
pub struct TimestampedMessage {
    pub timestamp: String,
    pub message: AgentMessage,
}

impl View for TimestampedMessage {
    type V = TimestampedMessageView;

    open spec fn view(&self) -> TimestampedMessageView {
        TimestampedMessageView { timestamp: self.timestamp@, message: self.message@ }
    }
}

impl DeepView for TimestampedMessage {
    type V = TimestampedMessageView;

    open spec fn deep_view(&self) -> TimestampedMessageView {
        self.view()
    }
}

impl Clone for TimestampedMessage {
    fn clone(&self) -> (r: Self)
        ensures
            r == *self,
    {
        TimestampedMessage { timestamp: self.timestamp.clone(), message: self.message.clone() }
    }
}

/// Relies on `chrono::Utc::now` and `chrono::DateTime::to_rfc3339`: the
/// current UTC civil time, rendered as RFC 3339 text. The result depends on
/// the clock, so nothing is assumed about which text comes back.
#[verifier::external_body]
fn now_rfc3339() -> String {
    chrono::Utc::now().to_rfc3339()
}

impl TimestampedMessage {
    /// Stamps a message with the civil time of the call.
    pub fn now(message: AgentMessage) -> (r: Self)
        ensures
            r.message == message,
    {
        TimestampedMessage { timestamp: now_rfc3339(), message }
    }
}

/// Appends one freshly stamped record to a scope's record sequence: every
/// record already present is kept, unchanged and at its index, and the new
/// message becomes the last record.
pub fn append_record(records: &mut Vec<TimestampedMessage>, message: AgentMessage)
    ensures
        final(records)@.len() == old(records)@.len() + 1,
        forall|i: int| 0 <= i < old(records)@.len() ==> final(records)@[i] == old(records)@[i],
        final(records)@[old(records)@.len() as int].message == message,
{
    let stamped = TimestampedMessage::now(message);
    records.push(stamped);
}

/// Strips the timestamps off a scope's record sequence, keeping the
/// messages in insertion order. This is how a persisted record becomes the
/// transcript an orchestrator starts from.
pub fn records_to_messages(records: &Vec<TimestampedMessage>) -> (r: Vec<AgentMessage>)
    ensures
        r@.len() == records@.len(),
        forall|i: int| 0 <= i < records@.len() ==> r@[i] == records@[i].message,
{
    let mut messages: Vec<AgentMessage> = Vec::new();
    let mut i: usize = 0;
    while i < records.len()
        invariant
            i <= records.len(),
            messages@.len() == i,
            forall|j: int| 0 <= j < i ==> messages@[j] == records@[j].message,
        decreases records.len() - i,
    {
        messages.push(records[i].message.clone());
        i = i + 1;
    }
    messages
}

/// **Scope isolation.** Two per-session stores over the same root, owned by
/// sessions with different identifiers, keep their records in different
/// files: what one session persists is invisible to the other.
pub proof fn lemma_scope_isolation(a: LocalPersistenceView, b: LocalPersistenceView)
    requires
        !a.global_persistence,
        !b.global_persistence,
        a.root_dir == b.root_dir,
        a.session_id != b.session_id,
    ensures
        spec_storage_path(a) != spec_storage_path(b),
{
    reveal_strlit("/");
    reveal_strlit("/chat.json");
    let pa = spec_storage_path(a);
    let pb = spec_storage_path(b);
    if pa == pb {
        assert(pa.len() == a.root_dir.len() + 1 + a.session_id.len() + 10);
        assert(pb.len() == b.root_dir.len() + 1 + b.session_id.len() + 10);
        assert(a.session_id.len() == b.session_id.len());
        assert forall|i: int| 0 <= i < a.session_id.len() implies a.session_id[i]
            == b.session_id[i] by {
            assert(pa[a.root_dir.len() + 1 + i] == a.session_id[i]);
            assert(pb[b.root_dir.len() + 1 + i] == b.session_id[i]);
        }
        assert(a.session_id =~= b.session_id);
    }
}

/// **Shared history.** Two shared-mode stores over the same root keep their
/// records in the same file, whatever sessions own them: every session
/// reads and extends one continuous transcript.
pub proof fn lemma_shared_history_single_path(a: LocalPersistenceView, b: LocalPersistenceView)
    requires
        a.global_persistence,
        b.global_persistence,
        a.root_dir == b.root_dir,
    ensures
        spec_storage_path(a) == spec_storage_path(b),
{
}

} // verus!
