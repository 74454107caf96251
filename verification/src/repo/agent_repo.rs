//! Storage contract of the agent service.

use vstd::prelude::*;

use crate::models::agent::{Agent, AgentPatch, NewAgent};

verus! {

/// Where agents are kept. Each method reports a storage failure as a message.
pub trait AgentRepo {
    /// Stores a new agent and returns it as stored.
    fn insert(&self, new_agent: &NewAgent) -> Result<Agent, String>;

    /// The agents, newest first; disabled ones only when `include_disabled`.
    fn list(&self, include_disabled: bool) -> Result<Vec<Agent>, String>;

    /// The agent `id`, if any.
    fn get(&self, id: &str) -> Result<Option<Agent>, String>;

    /// Applies `patch` to the agent `id` and returns it, or `None`.
    fn update(&self, id: &str, patch: &AgentPatch) -> Result<Option<Agent>, String>;

    /// Deletes the agent `id`; whether there was one.
    fn delete(&self, id: &str) -> Result<bool, String>;
}

} // verus!
