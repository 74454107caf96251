//! Storage contract of the channel service.

use vstd::prelude::*;

use crate::models::{Channel, ChannelPatch, NewChannel};

verus! {

/// Where channels are kept. Each method reports a storage failure as a message.
pub trait ChannelRepo {
    /// Stores a new channel and returns it as stored.
    fn insert(&self, new_channel: &NewChannel) -> Result<Channel, String>;

    /// The channels, newest first; disabled ones only when `include_disabled`.
    fn list(&self, include_disabled: bool) -> Result<Vec<Channel>, String>;

    /// The channel with the id `id`, if any.
    fn get(&self, id: &str) -> Result<Option<Channel>, String>;

    /// Applies `patch` to the channel `id` and returns it, or `None` when it does not exist.
    fn update(&self, id: &str, patch: &ChannelPatch) -> Result<Option<Channel>, String>;

    /// Deletes the channel `id`; whether there was one.
    fn delete(&self, id: &str) -> Result<bool, String>;
}

} // verus!
