//! The durable-store boundary: the abstract store capability and the
//! file-layout rules of the local store.

pub mod local;

pub use local::LocalPersistence;

use vstd::prelude::*;

use crate::agent_core::AgentMessage;

verus! {

/// The failure a store reports when an append or a load cannot be carried
/// out. During a turn every append failure is swallowed by the
/// orchestrator; only a load failure at construction is fatal.
#[derive(Debug, PartialEq, Eq)]
pub struct StoreError {
    pub message: String,
}

impl Clone for StoreError {
    fn clone(&self) -> (r: Self)
        ensures
            r == *self,
    {
        StoreError { message: self.message.clone() }
    }
}

/// The abstract durable store. `store_chat_message` appends one message
/// under the given session identifier, creating the scope's record if none
/// exists yet; `load_context` returns the previously persisted transcript
/// for the store's configured scope, in insertion order, and an empty
/// transcript — not a failure — when no prior record exists.
///
/// Implementations live outside the verified core; no behavior is assumed
/// of them beyond their signatures.
pub trait Persistence {
    fn store_chat_message(&self, message: &AgentMessage, session_id: &str) -> Result<
        (),
        StoreError,
    >;

    fn load_context(&self) -> Result<Vec<AgentMessage>, StoreError>;
}

} // verus!
