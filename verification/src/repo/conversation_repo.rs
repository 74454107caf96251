//! Storage contract of the conversation service.

use vstd::prelude::*;

use crate::models::conversation::{Conversation, ConversationPatch, ConversationSummary, NewConversation};

verus! {

/// Where conversations are kept. Each method reports a storage failure as a message.
pub trait ConversationRepo {
    /// Stores a new conversation and returns it as stored.
    fn insert(&self, new_conversation: &NewConversation) -> Result<Conversation, String>;

    /// The conversations that are archived, or those that are not.
    fn list(&self, archived: bool) -> Result<Vec<ConversationSummary>, String>;

    /// The conversation `id`, if any.
    fn get(&self, id: &str) -> Result<Option<Conversation>, String>;

    /// Applies `patch` to the conversation `id` and returns it, or `None`.
    fn update(&self, id: &str, patch: &ConversationPatch) -> Result<Option<Conversation>, String>;

    /// Deletes the conversation `id`; whether there was one.
    fn delete(&self, id: &str) -> Result<bool, String>;

    /// Sets the last update time of the conversation `id`; whether there was one.
    fn touch_updated_at(&self, id: &str, updated_at: i64) -> Result<bool, String>;
}

} // verus!
