//! A conversational agent orchestrator.
//!
//! One `run` call sends a user's message, together with the accumulated
//! transcript, to an abstract completion backend, consumes the backend's
//! reply fragment by fragment, updates the transcript, persists each turn
//! through an abstract store, and notifies a list of event listeners, in a
//! fixed observable order.

pub mod agent_core;
pub mod cli;
pub mod llm_core;
pub mod persistence;
