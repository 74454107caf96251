//! Requests, responses and records of messages and their versions.

use vstd::prelude::*;

verus! {

/// An image sent with a message.
#[derive(Debug, Clone, PartialEq, Eq)]
pub struct ImageAttachment {
    /// Image data, base64 encoded.
    pub base64: String,
    /// MIME type of the image.
    pub mime_type: String,
}

/// One version of a message.
#[derive(Debug, Clone, PartialEq, Eq)]
pub struct MessageVersion {
    /// Version id.
    pub id: String,
    /// Owning node.
    pub node_id: String,
    /// Text content.
    pub content: Option<String>,
    /// Thinking text.
    pub thinking_content: Option<String>,
    /// Attached images.
    pub images: Vec<ImageAttachment>,
    /// Generation status.
    pub status: String,
    /// Model that produced it.
    pub model_name: Option<String>,
    /// Prompt tokens used.
    pub prompt_tokens: Option<i64>,
    /// Completion tokens used.
    pub completion_tokens: Option<i64>,
    /// Why generation stopped.
    pub finish_reason: Option<String>,
    /// Creation time.
    pub created_at: i64,
}

/// A message position in a conversation with all its versions.
#[derive(Debug, Clone, PartialEq, Eq)]
pub struct MessageNode {
    /// Node id.
    pub id: String,
    /// Owning conversation.
    pub conversation_id: String,
    /// Agent that wrote it.
    pub author_agent_id: Option<String>,
    /// Role: user, assistant or system.
    pub role: String,
    /// Sort key within the conversation.
    pub order_key: String,
    /// Version shown.
    pub active_version_id: Option<String>,
    /// All versions.
    pub versions: Vec<MessageVersion>,
    /// Creation time.
    pub created_at: i64,
}

/// The full content of a version.
#[derive(Debug, Clone, PartialEq, Eq)]
pub struct VersionContent {
    /// Version id.
    pub version_id: String,
    /// Content text.
    pub content: String,
    /// Content type.
    pub content_type: String,
}

/// Input of sending a message.
#[derive(Debug, Clone, PartialEq, Eq)]
pub struct SendMessageInput {
    /// Message text.
    pub content: String,
    /// Attached images.
    pub images: Option<Vec<ImageAttachment>>,
    /// Whether to stream the reply.
    pub stream: Option<bool>,
    /// Only build the prompt.
    pub dry_run: Option<bool>,
}

/// Ids created by sending a message.
#[derive(Debug, Clone, PartialEq, Eq)]
pub struct SendMessageResult {
    /// User node.
    pub user_node_id: String,
    /// User version.
    pub user_version_id: String,
    /// Assistant node.
    pub assistant_node_id: String,
    /// Assistant version.
    pub assistant_version_id: String,
}

/// One message of a prompt.
#[derive(Debug, Clone, PartialEq, Eq)]
pub struct PromptMessage {
    /// Role.
    pub role: String,
    /// Text.
    pub content: String,
    /// Images.
    pub images: Vec<ImageAttachment>,
}

/// The prompt a send would use.
#[derive(Debug, Clone, PartialEq, Eq)]
pub struct DryRunResult {
    /// Prompt messages.
    pub messages: Vec<PromptMessage>,
    /// Estimated token count.
    pub total_tokens_estimate: i64,
    /// Model.
    pub model: String,
}

/// Either a prompt preview or the ids of a started generation.
#[derive(Debug, Clone, PartialEq, Eq)]
pub enum SendMessageResponse {
    DryRun(DryRunResult),
    Started(SendMessageResult),
}

/// Input of regenerating a reply.
#[derive(Debug, Clone, PartialEq, Eq, Default)]
pub struct RerollInput {
    /// Whether to stream.
    pub stream: Option<bool>,
}

/// Input of editing a message.
#[derive(Debug, Clone, PartialEq, Eq, Default)]
pub struct EditMessageInput {
    /// New text.
    pub content: String,
    /// Whether to regenerate the reply.
    pub resend: Option<bool>,
    /// Whether to stream.
    pub stream: Option<bool>,
}

/// Ids created by a regeneration.
#[derive(Debug, Clone, PartialEq, Eq)]
pub struct RerollResult {
    /// New user version, if any.
    pub new_user_version_id: Option<String>,
    /// Assistant node.
    pub assistant_node_id: String,
    /// Assistant version.
    pub assistant_version_id: String,
}

/// Ids created by an edit.
#[derive(Debug, Clone, PartialEq, Eq)]
pub struct EditMessageResult {
    /// Edited version.
    pub edited_version_id: String,
    /// Assistant node, when resent.
    pub assistant_node_id: Option<String>,
    /// Assistant version, when resent.
    pub assistant_version_id: Option<String>,
}

/// Outcome of deleting a version.
#[derive(Debug, Clone, PartialEq, Eq)]
pub struct DeleteVersionResult {
    /// Whether the node went with it.
    pub node_deleted: bool,
    /// Version now shown.
    pub new_active_version_id: Option<String>,
}

/// An event of a running generation, sent to the front end.
#[derive(Debug, Clone, PartialEq, Eq)]
pub enum GenerationEvent {
    Chunk {
        conversation_id: String,
        node_id: String,
        version_id: String,
        delta: String,
        reasoning_delta: Option<String>,
    },
    Completed {
        conversation_id: String,
        node_id: String,
        version_id: String,
        prompt_tokens: i64,
        completion_tokens: i64,
        finish_reason: String,
        model: String,
    },
    Failed { conversation_id: String, node_id: String, version_id: String, error: String },
    Cancelled { conversation_id: String, node_id: String, version_id: String },
    EmptyRollback {
        conversation_id: String,
        node_id: String,
        node_deleted: bool,
        fallback_version_id: Option<String>,
    },
}

/// A node row without its versions.
#[derive(Debug, Clone, PartialEq, Eq)]
pub struct MessageNodeRecord {
    /// Node id.
    pub id: String,
    /// Conversation.
    pub conversation_id: String,
    /// Author agent.
    pub author_agent_id: Option<String>,
    /// Role.
    pub role: String,
    /// Sort key.
    pub order_key: String,
    /// Version shown.
    pub active_version_id: Option<String>,
    /// Creation time.
    pub created_at: i64,
}

/// A version row without its content.
#[derive(Debug, Clone, PartialEq, Eq)]
pub struct VersionMeta {
    /// Version id.
    pub id: String,
    /// Node.
    pub node_id: String,
    /// Status.
    pub status: String,
    /// Model.
    pub model_name: Option<String>,
    /// Prompt tokens.
    pub prompt_tokens: Option<i64>,
    /// Completion tokens.
    pub completion_tokens: Option<i64>,
    /// Finish reason.
    pub finish_reason: Option<String>,
    /// Creation time.
    pub created_at: i64,
}

/// A node as the repository inserts it.
#[derive(Debug, Clone, PartialEq, Eq)]
pub struct NewMessageNode {
    /// Node id.
    pub id: String,
    /// Conversation.
    pub conversation_id: String,
    /// Author agent.
    pub author_agent_id: Option<String>,
    /// Role.
    pub role: String,
    /// Sort key.
    pub order_key: String,
    /// Creation time.
    pub created_at: i64,
}

/// A version as the repository inserts it.
#[derive(Debug, Clone, PartialEq, Eq)]
pub struct NewMessageVersion {
    /// Version id.
    pub id: String,
    /// Node.
    pub node_id: String,
    /// Status.
    pub status: String,
    /// Model.
    pub model_name: Option<String>,
    /// Creation time.
    pub created_at: i64,
}

/// A content chunk as the repository inserts it.
#[derive(Debug, Clone, PartialEq, Eq)]
pub struct NewMessageContent {
    /// Chunk id.
    pub id: String,
    /// Version.
    pub version_id: String,
    /// Position of the chunk.
    pub chunk_index: i64,
    /// Content type.
    pub content_type: String,
    /// Text.
    pub body: String,
    /// Creation time.
    pub created_at: i64,
}

/// A partial update of a version.
#[derive(Debug, Clone, PartialEq, Eq, Default)]
pub struct MessageVersionPatch {
    /// New status.
    pub status: Option<String>,
    /// New prompt tokens.
    pub prompt_tokens: Option<Option<i64>>,
    /// New completion tokens.
    pub completion_tokens: Option<Option<i64>>,
    /// New finish reason.
    pub finish_reason: Option<Option<String>>,
    /// New model.
    pub model_name: Option<Option<String>>,
}

} // verus!
