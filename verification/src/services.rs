//! Application services: the orchestration and the rules of each feature.

pub mod agent_service;
pub mod api_channels;
pub mod channel_service;
pub mod content;
pub mod content_store;
pub mod context_builder;
pub mod conversation_service;
pub mod generation;
pub mod generation_engine;
pub mod keyring;
pub mod lorebooks;
pub mod message_service;
pub mod messages;
pub mod model_service;
pub mod outcome;
pub mod provider;
pub mod runs;
pub mod summaries;
pub mod transforms;
pub mod variables;
pub mod versioning;
