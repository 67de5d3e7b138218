//! The conversation session: a process-unique identifier that scopes
//! persistence and correlates turns.

use vstd::prelude::*;

verus! {

/// A conversation session. The identifier is generated once, at orchestrator
/// construction, and never changes afterwards; it is the storage scope under
/// which per-session persistence files a transcript.
#[derive(Debug, PartialEq, Eq)]
pub struct Session {
    pub id: String,
}

/// Relies on `uuid::Uuid::new_v4` and its `Display` rendering: a freshly
/// drawn random version-4 UUID, written in the hyphenated form, which is
/// always 36 characters long. Nothing is assumed about which identifier
/// comes back, only its length.
#[verifier::external_body]
fn fresh_session_id() -> (r: String)
    ensures
        r@.len() == 36,
{
    uuid::Uuid::new_v4().to_string()
}

impl Session {
    /// Creates a session with a freshly generated identifier.
    pub fn new() -> (r: Self)
        ensures
            r.id@.len() == 36,
    {
        let id = fresh_session_id();
        Session { id }
    }
}

impl Clone for Session {
    fn clone(&self) -> (r: Self)
        ensures
            r == *self,
    {
        Session { id: self.id.clone() }
    }
}

} // verus!
