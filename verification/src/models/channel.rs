//! Requests and responses of channel management.

use vstd::prelude::*;

verus! {

/// A persisted provider channel.
#[derive(Debug, Clone, PartialEq, Eq)]
pub struct Channel {
    /// Channel id.
    pub id: String,
    /// Display name.
    pub name: String,
    /// Provider family, such as `openai_compatible`.
    pub channel_type: String,
    /// Root URL of the provider API.
    pub base_url: String,
    /// API key used to authenticate.
    pub api_key: Option<String>,
    /// Rotating API keys, a JSON array string.
    pub api_keys: Option<String>,
    /// How the key is sent: `bearer`, `x_api_key` or `none`.
    pub auth_type: Option<String>,
    /// Endpoint that lists models; also used to probe connectivity.
    pub models_endpoint: Option<String>,
    /// Non-streaming chat endpoint.
    pub chat_endpoint: Option<String>,
    /// Streaming chat endpoint.
    pub stream_endpoint: Option<String>,
    /// Custom thinking tags, a JSON array string.
    pub thinking_tags: Option<String>,
    /// Whether the channel is enabled.
    pub enabled: bool,
    /// Creation time, milliseconds since the epoch.
    pub created_at: i64,
    /// Last update time, milliseconds since the epoch.
    pub updated_at: i64,
}

/// Input of channel creation.
#[derive(Debug, Clone, PartialEq, Eq)]
pub struct CreateChannelInput {
    /// Display name.
    pub name: String,
    /// Root URL of the provider API.
    pub base_url: String,
    /// Provider family; `openai_compatible` when absent.
    pub channel_type: Option<String>,
    /// API key.
    pub api_key: Option<String>,
    /// Rotating API keys, a JSON array string.
    pub api_keys: Option<String>,
    /// Authentication scheme; the family's default when absent.
    pub auth_type: Option<String>,
    /// Models endpoint; the family's default when absent.
    pub models_endpoint: Option<String>,
    /// Chat endpoint; the family's default when absent.
    pub chat_endpoint: Option<String>,
    /// Streaming endpoint; the family's default when absent.
    pub stream_endpoint: Option<String>,
    /// Thinking tags, a JSON array string.
    pub thinking_tags: Option<String>,
    /// Enabled flag; enabled when absent.
    pub enabled: Option<bool>,
}

/// Partial update of a channel: only the fields given change.
#[derive(Debug, Clone, PartialEq, Eq, Default)]
pub struct UpdateChannelInput {
    /// New display name.
    pub name: Option<String>,
    /// New root URL.
    pub base_url: Option<String>,
    /// New provider family.
    pub channel_type: Option<String>,
    /// New API key.
    pub api_key: Option<String>,
    /// New rotating API keys.
    pub api_keys: Option<String>,
    /// New authentication scheme.
    pub auth_type: Option<String>,
    /// New models endpoint.
    pub models_endpoint: Option<String>,
    /// New chat endpoint.
    pub chat_endpoint: Option<String>,
    /// New streaming endpoint.
    pub stream_endpoint: Option<String>,
    /// New thinking tags.
    pub thinking_tags: Option<String>,
    /// New enabled flag.
    pub enabled: Option<bool>,
}

/// A channel as the repository inserts it.
#[derive(Debug, Clone, PartialEq, Eq)]
pub struct NewChannel {
    /// Channel id.
    pub id: String,
    /// Display name.
    pub name: String,
    /// Provider family, such as `openai_compatible`.
    pub channel_type: String,
    /// Root URL of the provider API.
    pub base_url: String,
    /// API key used to authenticate.
    pub api_key: Option<String>,
    /// Rotating API keys, a JSON array string.
    pub api_keys: Option<String>,
    /// How the key is sent: `bearer`, `x_api_key` or `none`.
    pub auth_type: Option<String>,
    /// Endpoint that lists models; also used to probe connectivity.
    pub models_endpoint: Option<String>,
    /// Non-streaming chat endpoint.
    pub chat_endpoint: Option<String>,
    /// Streaming chat endpoint.
    pub stream_endpoint: Option<String>,
    /// Custom thinking tags, a JSON array string.
    pub thinking_tags: Option<String>,
    /// Whether the channel is enabled.
    pub enabled: bool,
    /// Creation time, milliseconds since the epoch.
    pub created_at: i64,
    /// Last update time, milliseconds since the epoch.
    pub updated_at: i64,
}

/// A partial update as the repository applies it.
#[derive(Debug, Clone, PartialEq, Eq)]
pub struct ChannelPatch {
    /// New display name.
    pub name: Option<String>,
    /// New root URL.
    pub base_url: Option<String>,
    /// New provider family.
    pub channel_type: Option<String>,
    /// New API key.
    pub api_key: Option<String>,
    /// New rotating API keys.
    pub api_keys: Option<String>,
    /// New authentication scheme.
    pub auth_type: Option<String>,
    /// New models endpoint.
    pub models_endpoint: Option<String>,
    /// New chat endpoint.
    pub chat_endpoint: Option<String>,
    /// New streaming endpoint.
    pub stream_endpoint: Option<String>,
    /// New thinking tags.
    pub thinking_tags: Option<String>,
    /// New enabled flag.
    pub enabled: Option<bool>,
    /// Time of the update.
    pub updated_at: i64,
}

/// Outcome of a connectivity test.
#[derive(Debug, Clone, PartialEq, Eq)]
pub struct ChannelTestResult {
    /// Whether the channel answered.
    pub success: bool,
    /// Optional status message.
    pub message: Option<String>,
}

/// The normalised connectivity probe.
#[derive(Debug, Clone, PartialEq, Eq)]
pub struct TestChannelRequest {
    /// URL to probe.
    pub url: String,
    /// Authentication header name and value, if any.
    pub auth_header: Option<(String, String)>,
}

} // verus!
