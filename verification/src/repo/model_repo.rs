//! Storage contract of the model service.

use vstd::prelude::*;

use crate::models::model::{ChannelModel, ChannelModelPatch, NewChannelModel};

verus! {

/// Where the models of the channels are kept. Each method reports a storage
/// failure as a message.
pub trait ModelRepo {
    /// Whether the channel `channel_id` exists.
    fn channel_exists(&self, channel_id: &str) -> Result<bool, String>;

    /// Whether the channel already has a model with the identifier `model_id`.
    fn model_id_exists(&self, channel_id: &str, model_id: &str) -> Result<bool, String>;

    /// Stores a new model and returns it as stored.
    fn insert(&self, new_model: &NewChannelModel) -> Result<ChannelModel, String>;

    /// The models of a channel.
    fn list_by_channel(&self, channel_id: &str) -> Result<Vec<ChannelModel>, String>;

    /// The model `id` of the channel, if any.
    fn get_by_channel_and_id(&self, channel_id: &str, id: &str) -> Result<Option<ChannelModel>, String>;

    /// Applies `patch` to the model `id` of the channel and returns it, or `None`.
    fn update(&self, channel_id: &str, id: &str, patch: &ChannelModelPatch) -> Result<
        Option<ChannelModel>,
        String,
    >;

    /// Deletes the model `id` of the channel; whether there was one.
    fn delete(&self, channel_id: &str, id: &str) -> Result<bool, String>;
}

} // verus!
