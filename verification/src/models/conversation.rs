//! Requests and responses of conversation management.

use vstd::prelude::*;

verus! {

/// A persisted conversation.
#[derive(Debug, Clone, PartialEq, Eq)]
pub struct Conversation {
    /// Conversation id.
    pub id: String,
    /// Title.
    pub title: String,
    /// Agent taking part.
    pub agent_id: Option<String>,
    /// Channel used for replies.
    pub channel_id: Option<String>,
    /// Model used for replies.
    pub channel_model_id: Option<String>,
    /// Whether the conversation is archived.
    pub archived: bool,
    /// Whether the conversation is pinned.
    pub pinned: bool,
    /// Creation time, milliseconds since the epoch.
    pub created_at: i64,
    /// Last update time, milliseconds since the epoch.
    pub updated_at: i64,
}

/// A conversation as the list shows it.
#[derive(Debug, Clone, PartialEq, Eq)]
pub struct ConversationSummary {
    /// Conversation id.
    pub id: String,
    /// Title.
    pub title: String,
    /// Agent taking part.
    pub agent_id: Option<String>,
    /// Channel used for replies.
    pub channel_id: Option<String>,
    /// Model used for replies.
    pub channel_model_id: Option<String>,
    /// Whether the conversation is archived.
    pub archived: bool,
    /// Whether the conversation is pinned.
    pub pinned: bool,
    /// Last update time, milliseconds since the epoch.
    pub updated_at: i64,
}

/// Input of conversation creation.
#[derive(Debug, Clone, PartialEq, Eq, Default)]
pub struct CreateConversationInput {
    /// Title; a default title when absent.
    pub title: Option<String>,
    /// Agent.
    pub agent_id: Option<String>,
    /// Channel.
    pub channel_id: Option<String>,
    /// Model.
    pub channel_model_id: Option<String>,
}

/// Partial update of a conversation; a `*_set` flag marks a field given, possibly as empty.
#[derive(Debug, Clone, PartialEq, Eq, Default)]
pub struct UpdateConversationInput {
    /// New title.
    pub title: Option<String>,
    /// Whether `agent_id` is given.
    pub agent_id_set: bool,
    /// New agent.
    pub agent_id: Option<String>,
    /// Whether `channel_id` is given.
    pub channel_id_set: bool,
    /// New channel.
    pub channel_id: Option<String>,
    /// Whether `channel_model_id` is given.
    pub channel_model_id_set: bool,
    /// New model.
    pub channel_model_id: Option<String>,
    /// New archived flag.
    pub archived: Option<bool>,
    /// New pinned flag.
    pub pinned: Option<bool>,
}

/// A conversation as the repository inserts it.
#[derive(Debug, Clone, PartialEq, Eq)]
pub struct NewConversation {
    /// Conversation id.
    pub id: String,
    /// Title.
    pub title: String,
    /// Agent taking part.
    pub agent_id: Option<String>,
    /// Channel used for replies.
    pub channel_id: Option<String>,
    /// Model used for replies.
    pub channel_model_id: Option<String>,
    /// Whether the conversation is archived.
    pub archived: bool,
    /// Whether the conversation is pinned.
    pub pinned: bool,
    /// Creation time, milliseconds since the epoch.
    pub created_at: i64,
    /// Last update time, milliseconds since the epoch.
    pub updated_at: i64,
}

/// A partial update as the repository applies it; `Some(None)` clears a field.
#[derive(Debug, Clone, PartialEq, Eq, Default)]
pub struct ConversationPatch {
    /// New title.
    pub title: Option<String>,
    /// New agent.
    pub agent_id: Option<Option<String>>,
    /// New channel.
    pub channel_id: Option<Option<String>>,
    /// New model.
    pub channel_model_id: Option<Option<String>>,
    /// New archived flag.
    pub archived: Option<bool>,
    /// New pinned flag.
    pub pinned: Option<bool>,
    /// Time of the update.
    pub updated_at: i64,
}

} // verus!
