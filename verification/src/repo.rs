//! Storage contracts of the services: each service reads and writes its
//! records through one of these traits, which the application implements
//! over its database and tests implement in memory.

pub mod agent_repo;
pub mod channel_repo;
pub mod conversation_repo;
pub mod message_repo;
pub mod model_repo;
