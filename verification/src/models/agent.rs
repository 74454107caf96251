//! Requests and responses of agent management.

use vstd::prelude::*;

verus! {

/// A persisted agent.
#[derive(Debug, Clone, PartialEq, Eq)]
pub struct Agent {
    /// Agent id.
    pub id: String,
    /// Display name.
    pub name: String,
    /// System prompt sent before the conversation.
    pub system_prompt: Option<String>,
    /// Avatar location.
    pub avatar_uri: Option<String>,
    /// Whether the agent is enabled.
    pub enabled: bool,
    /// Creation time, milliseconds since the epoch.
    pub created_at: i64,
    /// Last update time, milliseconds since the epoch.
    pub updated_at: i64,
}

/// Input of agent creation.
#[derive(Debug, Clone, PartialEq, Eq)]
pub struct CreateAgentInput {
    /// Display name.
    pub name: String,
    /// System prompt.
    pub system_prompt: Option<String>,
}

/// Partial update of an agent; `Some(None)` clears the prompt.
#[derive(Debug, Clone, PartialEq, Eq, Default)]
pub struct UpdateAgentInput {
    /// New name.
    pub name: Option<String>,
    /// New system prompt.
    pub system_prompt: Option<Option<String>>,
    /// New enabled flag.
    pub enabled: Option<bool>,
}

/// An agent as the repository inserts it.
#[derive(Debug, Clone, PartialEq, Eq)]
pub struct NewAgent {
    /// Agent id.
    pub id: String,
    /// Display name.
    pub name: String,
    /// System prompt sent before the conversation.
    pub system_prompt: Option<String>,
    /// Avatar location.
    pub avatar_uri: Option<String>,
    /// Whether the agent is enabled.
    pub enabled: bool,
    /// Creation time, milliseconds since the epoch.
    pub created_at: i64,
    /// Last update time, milliseconds since the epoch.
    pub updated_at: i64,
}

/// A partial update as the repository applies it.
#[derive(Debug, Clone, PartialEq, Eq, Default)]
pub struct AgentPatch {
    /// New name.
    pub name: Option<String>,
    /// New system prompt.
    pub system_prompt: Option<Option<String>>,
    /// New enabled flag.
    pub enabled: Option<bool>,
    /// Time of the update.
    pub updated_at: i64,
}

} // verus!
