//! Requests and responses of model management.

use vstd::prelude::*;

verus! {

/// A persisted model of a channel.
#[derive(Debug, Clone, PartialEq, Eq)]
pub struct ChannelModel {
    /// Record id.
    pub id: String,
    /// Owning channel.
    pub channel_id: String,
    /// Identifier sent to the provider.
    pub model_id: String,
    /// Human readable name.
    pub display_name: Option<String>,
    /// Context window size.
    pub context_window: Option<i64>,
    /// Largest number of output tokens.
    pub max_output_tokens: Option<i64>,
}

/// Input of model creation.
#[derive(Debug, Clone, PartialEq, Eq)]
pub struct CreateModelInput {
    /// Identifier sent to the provider.
    pub model_id: String,
    /// Human readable name.
    pub display_name: Option<String>,
    /// Context window size.
    pub context_window: Option<i64>,
    /// Largest number of output tokens.
    pub max_output_tokens: Option<i64>,
}

/// Partial update of a model; `Some(None)` clears a field.
#[derive(Debug, Clone, PartialEq, Eq, Default)]
pub struct UpdateModelInput {
    /// New display name.
    pub display_name: Option<Option<String>>,
    /// New context window.
    pub context_window: Option<Option<i64>>,
    /// New output limit.
    pub max_output_tokens: Option<Option<i64>>,
}

/// A model as the repository inserts it.
#[derive(Debug, Clone, PartialEq, Eq)]
pub struct NewChannelModel {
    /// Record id.
    pub id: String,
    /// Owning channel.
    pub channel_id: String,
    /// Identifier sent to the provider.
    pub model_id: String,
    /// Human readable name.
    pub display_name: Option<String>,
    /// Context window size.
    pub context_window: Option<i64>,
    /// Largest number of output tokens.
    pub max_output_tokens: Option<i64>,
}

/// A partial update as the repository applies it.
#[derive(Debug, Clone, PartialEq, Eq, Default)]
pub struct ChannelModelPatch {
    /// New display name.
    pub display_name: Option<Option<String>>,
    /// New context window.
    pub context_window: Option<Option<i64>>,
    /// New output limit.
    pub max_output_tokens: Option<Option<i64>>,
}

/// Model metadata read from the provider.
#[derive(Debug, Clone, PartialEq, Eq)]
pub struct RemoteModelInfo {
    /// Identifier the provider returned.
    pub model_id: String,
    /// Name the provider returned.
    pub display_name: Option<String>,
    /// Context window the provider returned.
    pub context_window: Option<i64>,
}

} // verus!
